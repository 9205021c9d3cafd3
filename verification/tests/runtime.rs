use restream::runtime::{
    database_url, env_flag_enabled, env_u64, http_address, log_retention_days, next_output_job_id,
    CorrelationIds, OutputRetryPolicy, PortEnv, RuntimeTuning, ServerPorts, TuningEnv,
};

#[test]
fn runtime_tuning_defaults_preserve_existing_operational_behavior() {
    let tuning = RuntimeTuning::default();

    assert_eq!(tuning.nofile_limit, 65_536);
    assert_eq!(tuning.reconciler_interval_ms, 1_000);
    assert_eq!(tuning.ingest_disconnect_grace_ms, 5_000);
    assert_eq!(tuning.session_prune_every_ticks(), 3_600);
    assert_eq!(tuning.output_max_retries, 10);
    assert_eq!(tuning.output_backoff_ms(1), 10_000);
    assert_eq!(tuning.output_backoff_ms(6), 300_000);
    assert_eq!(tuning.hls_idle_timeout_ms, 60_000);
}

#[test]
fn runtime_tuning_prune_cadence_tracks_reconciler_interval() {
    let tuning = RuntimeTuning {
        reconciler_interval_ms: 250,
        ..RuntimeTuning::default()
    };

    assert_eq!(tuning.session_prune_every_ticks(), 14_400);
}

#[test]
fn output_job_ids_are_unique_per_attempt() {
    let mut ids = CorrelationIds::new();
    let first = next_output_job_id(&mut ids, "out-1");
    let second = next_output_job_id(&mut ids, "out-1");

    assert!(first.starts_with("job_out-1_"));
    assert!(second.starts_with("job_out-1_"));
    assert_ne!(first, second);
}

fn unset() -> TuningEnv {
    TuningEnv {
        nofile_limit: None,
        reconciler_interval_ms: None,
        ingest_disconnect_grace_ms: None,
        output_max_retries: None,
        output_retry_base_ms: None,
        output_retry_max_ms: None,
        hls_idle_timeout_ms: None,
    }
}

#[test]
fn tuning_without_variables_is_the_default() {
    assert_eq!(RuntimeTuning::from_env(&unset()), RuntimeTuning::default());
}

#[test]
fn tuning_is_raised_to_its_least_values() {
    let tuning = RuntimeTuning::from_env(&TuningEnv {
        nofile_limit: Some("0".to_string()),
        reconciler_interval_ms: Some("7".to_string()),
        ingest_disconnect_grace_ms: Some("0".to_string()),
        output_max_retries: Some("x".to_string()),
        output_retry_base_ms: Some("0".to_string()),
        ..unset()
    });
    assert_eq!(tuning.nofile_limit, 1);
    assert_eq!(tuning.reconciler_interval_ms, 100);
    assert_eq!(tuning.ingest_disconnect_grace_ms, 0);
    assert_eq!(tuning.output_max_retries, 10);
    assert_eq!(tuning.output_retry_base_ms, 1);
}

#[test]
fn prune_cadence_is_rounded_up_and_never_zero() {
    let tuning = RuntimeTuning {
        reconciler_interval_ms: 7_000,
        ..RuntimeTuning::default()
    };
    assert_eq!(tuning.session_prune_every_ticks(), 515);
    let tuning = RuntimeTuning {
        reconciler_interval_ms: 9_000_000,
        ..RuntimeTuning::default()
    };
    assert_eq!(tuning.session_prune_every_ticks(), 1);
}

#[test]
fn backoff_doubles_up_to_its_maximum() {
    let policy = OutputRetryPolicy {
        max_retries: 10,
        base_ms: 5_000,
        max_ms: 300_000,
    };
    assert_eq!(policy.backoff_ms(0), 5_000);
    assert_eq!(policy.backoff_ms(5), 160_000);
    assert_eq!(policy.backoff_ms(6), 300_000);
    assert_eq!(policy.backoff_ms(4_000_000_000), 300_000);
}

#[test]
fn variables_are_read_or_replaced() {
    assert_eq!(env_u64(&Some("12".to_string()), 100, 5), 12);
    assert_eq!(env_u64(&Some("101".to_string()), 100, 5), 5);
    assert_eq!(env_u64(&Some("abc".to_string()), 100, 5), 5);
    assert_eq!(env_u64(&None, 100, 5), 5);
    assert!(env_flag_enabled(&Some("1".to_string())));
    assert!(!env_flag_enabled(&None));
}

#[test]
fn ports_come_from_the_environment_or_their_defaults() {
    let ports = ServerPorts::from_env(&PortEnv {
        http: Some("8080".to_string()),
        rtmp: Some("70000".to_string()),
        srt: None,
    });
    assert_eq!(ports.http, 8080);
    assert_eq!(ports.rtmp, 1935);
    assert_eq!(ports.srt, 10080);
}

#[test]
fn addresses_and_database_urls_are_exact() {
    assert_eq!(http_address(3030), "0.0.0.0:3030");
    assert_eq!(database_url(&None), "sqlite:data.db?mode=rwc");
    assert_eq!(
        database_url(&Some("x.db".to_string())),
        "sqlite:x.db?mode=rwc"
    );
    assert_eq!(log_retention_days(&None), 7);
    assert_eq!(log_retention_days(&Some("-3".to_string())), -3);
}

#[test]
fn correlation_ids_count_up() {
    let mut ids = CorrelationIds::new();
    let first = ids.next_correlation_id("out");
    let second = ids.next_correlation_id("out");
    assert_eq!((first.as_str(), second.as_str()), ("out-0001", "out-0002"));
}
