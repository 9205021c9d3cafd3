use restream::domain::ingest_security::IngestSecurityConfig;

#[test]
fn normalize_clamps_non_positive_values() {
    let mut config = IngestSecurityConfig {
        failure_limit: 0,
        failure_window_ms: -5,
        ban_ms: 0,
        tracked_ip_limit: -10,
    };

    config.normalize();

    assert_eq!(config.failure_limit, 1);
    assert_eq!(config.failure_window_ms, 1);
    assert_eq!(config.ban_ms, 1);
    assert_eq!(config.tracked_ip_limit, 1);
}

#[test]
fn validate_rejects_non_positive_values() {
    let config = IngestSecurityConfig {
        failure_limit: 0,
        ..IngestSecurityConfig::default()
    };

    assert_eq!(
        config.validate(),
        Err("ingestSecurity.failureLimit must be >= 1")
    );
}

#[test]
fn every_setting_that_is_not_positive_is_refused() {
    let good = IngestSecurityConfig::default();
    assert_eq!(good.validate(), Ok(()));
    let refused = |config: IngestSecurityConfig| config.validate().unwrap_err();
    assert_eq!(
        refused(IngestSecurityConfig {
            failure_window_ms: 0,
            ..good
        }),
        "ingestSecurity.failureWindowMs must be >= 1"
    );
    assert_eq!(
        refused(IngestSecurityConfig { ban_ms: -1, ..good }),
        "ingestSecurity.banMs must be >= 1"
    );
    assert_eq!(
        refused(IngestSecurityConfig {
            tracked_ip_limit: 0,
            ..good
        }),
        "ingestSecurity.trackedIpLimit must be >= 1"
    );
}
