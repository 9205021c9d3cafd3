use std::collections::HashSet;

use restream::harness::commands::{
    artifact_path, command_uses_host_net, default_work_db_path, is_bench_profile,
    maybe_reexec_in_port_namespace, read_command, strip_netns_opt, Command, NamespaceAction,
};
use restream::harness::logs::{log_has_correlation_id, parse_log_fields};
use restream::harness::ports::{
    env_or_allocated_port, harness_port_defaults, synthesized_harness_port, HarnessPortEnv,
};
use restream::harness::setup::{run_paths, sweep_paths, RunPathEnv};
use restream::harness::suite::suite_mode_is_parallelizable;
use restream::json::Json;

fn log_with(fields: &str) -> Json {
    Json::Object(vec![("fields".to_string(), Json::Text(fields.to_string()))])
}

#[test]
fn default_work_db_path_stays_under_work_dir() {
    let work_dir = "test/artifacts/example";
    assert_eq!(
        default_work_db_path(work_dir, "suite.db"),
        format!("{work_dir}/suite.db")
    );
}

#[test]
fn databases_stay_under_the_work_dir() {
    let unset = RunPathEnv {
        scale_log: None,
        rss_summary: None,
        summary_log: None,
        restream_log: None,
        mediamtx_log: None,
        mediamtx_config: None,
        database: None,
        assertion_log: Some(String::new()),
    };
    let paths = run_paths(&unset, "work", "mixed-anchor-", "mixed-anchor.db");
    assert_eq!(paths.database, "work/mixed-anchor.db");
    assert_eq!(paths.restream_log, "work/mixed-anchor-restream.log");
    assert_eq!(paths.assertion_log, None);
    let paths = sweep_paths("work", "resource-sweep", &None);
    assert_eq!(paths.database, "work/resource-sweep.db");
    assert_eq!(paths.summary_csv, "work/resource-sweep-results.csv");
}

#[test]
fn strip_netns_opt_removes_only_the_opt_out_flag() {
    let raw = vec![
        "bitrate-sweep".to_string(),
        "--no-netns".to_string(),
        "--work-root".to_string(),
        "test/artifacts/example".to_string(),
    ];
    assert_eq!(
        strip_netns_opt(&raw),
        vec![
            "bitrate-sweep".to_string(),
            "--work-root".to_string(),
            "test/artifacts/example".to_string(),
        ]
    );
}

#[test]
fn only_non_measurement_modes_parallelize_in_suite() {
    assert!(suite_mode_is_parallelizable("correctness-hevc-srt", false));
    assert!(suite_mode_is_parallelizable("fault-egress-retry", false));
    assert!(suite_mode_is_parallelizable("fault-resilience", false));
    assert!(suite_mode_is_parallelizable("recovery", false));
    assert!(!suite_mode_is_parallelizable("bitrate-sweep", false));
    assert!(!suite_mode_is_parallelizable("preflight", true));
}

#[test]
fn synthesized_harness_ports_are_high_and_distinct() {
    for pid in [1, 4242, 4_294_967_295] {
        let mut reserved = Vec::new();
        let http = env_or_allocated_port("RESTREAM_HTTP", 3030, &None, pid, &mut reserved);
        let rtmp = env_or_allocated_port("RESTREAM_RTMP", 1935, &None, pid, &mut reserved);
        let srt = env_or_allocated_port("RESTREAM_SRT", 10080, &None, pid, &mut reserved);
        let mtx_api = env_or_allocated_port("MTX_API", 9997, &None, pid, &mut reserved);
        let unique: HashSet<u16> = [http, rtmp, srt, mtx_api].into_iter().collect();

        assert_eq!(unique.len(), 4);
        assert!(unique.iter().all(|port| *port >= 20_000));
    }
}

#[test]
fn named_ports_come_from_the_environment() {
    let mut reserved = Vec::new();
    let port = env_or_allocated_port("MTX_API", 9997, &Some("9001".to_string()), 7, &mut reserved);
    assert_eq!(port, 9001);
    assert_eq!(reserved, vec![9001]);
}

#[test]
fn made_up_port_is_exact() {
    // hash of "A" is 65; 97 * 1 + 65 = 162
    assert_eq!(synthesized_harness_port("A", 1, &Vec::new()), Some(20_162));
    assert_eq!(synthesized_harness_port("A", 1, &vec![20_162]), Some(20_199));
    // hash of "AB" is 65 * 33 + 66 = 2211; 97 * 1 + 2211 = 2308
    assert_eq!(synthesized_harness_port("AB", 1, &Vec::new()), Some(22_308));
}

#[test]
fn all_ports_of_a_process_differ() {
    let unset = HarnessPortEnv {
        restream_http: None,
        restream_rtmp: None,
        restream_srt: None,
        mtx_rtmp: None,
        mtx_srt: None,
        mtx_hls: None,
        mtx_api: None,
    };
    let p = harness_port_defaults(&unset, 31_337);
    let unique: HashSet<u16> = [
        p.restream_http,
        p.restream_rtmp,
        p.restream_srt,
        p.mtx_rtmp,
        p.mtx_srt,
        p.mtx_hls,
        p.mtx_api,
    ]
    .into_iter()
    .collect();
    assert_eq!(unique.len(), 7);
}

#[test]
fn parse_log_fields_handles_json_string_payloads() {
    let log = log_with(r#"{"correlation_id":"out-0001","phase":"connect"}"#);

    let fields = parse_log_fields(&log).expect("parsed fields");
    assert_eq!(fields.get_text("correlation_id"), Some("out-0001"));
    assert_eq!(fields.get_text("phase"), Some("connect"));
}

#[test]
fn log_has_correlation_id_detects_both_field_spellings() {
    let snake = log_with(r#"{"correlation_id":"out-0001"}"#);
    let camel = log_with(r#"{"correlationId":"stage-0002"}"#);
    let none = log_with(r#"{"phase":"connect"}"#);

    assert!(log_has_correlation_id(&snake));
    assert!(log_has_correlation_id(&camel));
    assert!(!log_has_correlation_id(&none));
}

fn words(all: &[&str]) -> Vec<String> {
    all.iter().map(|w| w.to_string()).collect()
}

#[test]
fn commands_are_known_by_name() {
    assert_eq!(read_command(&words(&[])), Ok(Command::Suite));
    assert_eq!(
        read_command(&words(&["mixed-h265-srt-multi", "--x"])),
        Ok(Command::MixedH265SrtMulti)
    );
    let message = read_command(&words(&["no \"such\""])).unwrap_err();
    assert!(message.starts_with("unknown command \"no \\\"such\\\"\"; use suite, preflight,"));
}

#[test]
fn host_network_is_asked_for_by_flag_or_variable() {
    assert!(command_uses_host_net(&words(&["egress", "--no-netns"]), &None));
    assert!(!command_uses_host_net(&words(&["egress"]), &None));
}

#[test]
fn commands_that_open_ports_run_in_a_network_of_their_own() {
    let action = maybe_reexec_in_port_namespace(false, &words(&["egress"]), &None, true);
    assert!(matches!(action, NamespaceAction::Reexec(_)));
    let action = maybe_reexec_in_port_namespace(true, &words(&["egress"]), &None, true);
    assert!(matches!(action, NamespaceAction::Stay));
    let action = maybe_reexec_in_port_namespace(false, &words(&["suite"]), &None, true);
    assert!(matches!(action, NamespaceAction::Stay));
}

#[test]
fn artifacts_go_under_the_first_directory_that_is_set() {
    let some = |s: &str| Some(s.to_string());
    assert_eq!(artifact_path(&some("a"), &some("b"), "x.json"), "a/x.json");
    assert_eq!(artifact_path(&None, &some("b"), "x.json"), "b/x.json");
    assert_eq!(
        artifact_path(&None, &None, "x.json"),
        "test/artifacts/latest/x.json"
    );
}

#[test]
fn bench_profile_is_seen_in_the_path() {
    assert!(is_bench_profile("target/bench/restream"));
    assert!(!is_bench_profile("target/debug/restream"));
}
