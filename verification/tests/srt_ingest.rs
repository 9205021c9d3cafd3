use restream::domain::srt_ingest::{
    ResolvedSrtIngestConfig, SrtGlobalIngestConfig, SrtGlobalIngestMode, SrtPipelineIngestConfig,
    SrtPipelineIngestMode,
};

#[test]
fn global_srt_ingest_plaintext_clears_secret() {
    let mut cfg = SrtGlobalIngestConfig {
        mode: SrtGlobalIngestMode::Plaintext,
        passphrase: Some("0123456789".to_string()),
        pbkeylen: 24,
    };
    cfg.validate().unwrap();
    assert_eq!(cfg.passphrase, None);
    assert_eq!(cfg.resolve().unwrap(), ResolvedSrtIngestConfig::Plaintext);
}

#[test]
fn encrypted_pipeline_policy_overrides_global() {
    let mut global = SrtGlobalIngestConfig {
        mode: SrtGlobalIngestMode::Encrypted,
        passphrase: Some("global-pass-123".to_string()),
        pbkeylen: 16,
    };
    global.validate().unwrap();

    let mut pipeline = SrtPipelineIngestConfig {
        mode: SrtPipelineIngestMode::Encrypted,
        passphrase: Some("pipeline-pass-123".to_string()),
        pbkeylen: Some(32),
    };
    pipeline.validate().unwrap();

    assert_eq!(
        pipeline.resolve(&global).unwrap(),
        ResolvedSrtIngestConfig::Encrypted {
            passphrase: "pipeline-pass-123".to_string(),
            pbkeylen: 32,
        }
    );
}

#[test]
fn inherit_pipeline_policy_uses_global() {
    let mut global = SrtGlobalIngestConfig {
        mode: SrtGlobalIngestMode::Encrypted,
        passphrase: Some("global-pass-123".to_string()),
        pbkeylen: 24,
    };
    global.validate().unwrap();
    let mut pipeline = SrtPipelineIngestConfig::default();
    pipeline.validate().unwrap();

    assert_eq!(
        pipeline.resolve(&global).unwrap(),
        ResolvedSrtIngestConfig::Encrypted {
            passphrase: "global-pass-123".to_string(),
            pbkeylen: 24,
        }
    );
}

fn global(passphrase: Option<&str>, pbkeylen: i32) -> SrtGlobalIngestConfig {
    SrtGlobalIngestConfig {
        mode: SrtGlobalIngestMode::Encrypted,
        passphrase: passphrase.map(|p| p.to_string()),
        pbkeylen,
    }
}

#[test]
fn refused_policies_say_why() {
    assert_eq!(
        global(None, 16).validate().unwrap_err(),
        "SRT encrypted mode requires a passphrase"
    );
    assert_eq!(
        global(Some("too short"), 16).validate().unwrap_err(),
        "SRT passphrase must be 10-79 bytes"
    );
    assert_eq!(
        global(Some("long enough"), 20).validate().unwrap_err(),
        "SRT pbkeylen must be 16, 24, or 32"
    );
    let mut pipeline = SrtPipelineIngestConfig {
        mode: SrtPipelineIngestMode::Encrypted,
        passphrase: None,
        pbkeylen: None,
    };
    assert_eq!(
        pipeline.validate().unwrap_err(),
        "Per-pipeline encrypted SRT ingest requires a passphrase"
    );
    assert_eq!(
        pipeline.resolve(&global(Some("global-pass-123"), 16)).unwrap_err(),
        "missing per-pipeline SRT passphrase"
    );
    assert_eq!(global(None, 16).resolve().unwrap_err(), "missing SRT passphrase");
}
