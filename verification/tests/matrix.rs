use restream::json::Json;
use restream::matrix::{
    absolute_work_root, after_preflight, after_run, git_head, integration_args, matrix_manifest,
    mode_record, overall_status, parse_args, program_under_test, record_mode, take_mode,
    AfterPreflight, Config, MatrixProgress, ModeOutcome, ParsedArgs,
};
use restream::mcp::{allowed_origins, base_url, parse_options, select_auth, HttpAgentAuth};

fn words(all: &[&str]) -> Vec<String> {
    all.iter().map(|w| w.to_string()).collect()
}

fn config(args: &[&str]) -> Config {
    match parse_args("run-1", &None, &words(args)) {
        ParsedArgs::Run(config) => config,
        _ => panic!("expected a run"),
    }
}

#[test]
fn arguments_without_modes_run_the_default_ones() {
    let c = config(&[]);
    assert!(!c.modes.is_empty());
    assert_eq!(c.run_id, "run-1");
    assert!(!c.continue_on_fail);
}

#[test]
fn help_and_unknown_arguments_run_nothing() {
    assert!(matches!(
        parse_args("r", &None, &words(&["--help"])),
        ParsedArgs::Help
    ));
    assert!(matches!(
        parse_args("r", &None, &words(&["--no-such-flag"])),
        ParsedArgs::Refused(_)
    ));
}

#[test]
fn work_root_is_absolute() {
    let mut c = config(&[]);
    c.work_root = Some("out".to_string());
    assert_eq!(absolute_work_root("/repo", &c), "/repo/out");
    c.work_root = Some("/else".to_string());
    assert_eq!(absolute_work_root("/repo", &c), "/else");
}

#[test]
fn modes_run_in_turn_until_one_fails() {
    let mut c = config(&[]);
    c.modes = words(&["a", " ", "b"]);
    let start = MatrixProgress {
        next: 0,
        failed: false,
        stopped: false,
    };
    let (mode, progress) = take_mode(&c, start).expect("a mode");
    assert_eq!(mode, "a");
    let (mode, _) = take_mode(&c, progress).expect("another mode");
    assert_eq!(mode, "b");
    let failed = record_mode(progress, false, false);
    assert!(take_mode(&c, failed).is_none());
    assert_eq!(overall_status(failed), "FAIL");
    let going_on = record_mode(progress, false, true);
    assert!(take_mode(&c, going_on).is_some());
    assert_eq!(overall_status(going_on), "FAIL");
    assert_eq!(overall_status(record_mode(progress, true, false)), "PASS");
}

#[test]
fn preflight_decides_whether_a_mode_runs() {
    assert_eq!(after_preflight(true, 0, false), AfterPreflight::Run);
    assert_eq!(
        after_preflight(true, 0, true),
        AfterPreflight::Done(ModeOutcome {
            passed: true,
            preflight_passed: true,
            exit_code: 0
        })
    );
    assert!(matches!(
        after_preflight(false, 3, false),
        AfterPreflight::Done(ModeOutcome {
            passed: false,
            preflight_passed: false,
            exit_code: 3
        })
    ));
    assert_eq!(after_run(false, 9).exit_code, 9);
    assert_eq!(after_run(true, 9).exit_code, 0);
}

#[test]
fn integration_arguments_end_with_the_mode() {
    let mut c = config(&[]);
    c.run_flags = words(&["--keep"]);
    c.extra_args = words(&["--x"]);
    assert_eq!(
        integration_args(&c, true, "out.json", "ramp"),
        words(&["--keep", "--preflight", "--json", "out.json", "--x", "ramp"])
    );
}

#[test]
fn program_under_test_is_the_named_one() {
    let mut c = config(&[]);
    c.restream_bin = Some("bin/x".to_string());
    assert_eq!(program_under_test(&c, &Some("bin/y".to_string())), "bin/x");
    c.restream_bin = None;
    assert_eq!(program_under_test(&c, &Some("bin/y".to_string())), "bin/y");
}

#[test]
fn head_is_trimmed() {
    assert_eq!(git_head(true, b"abc\n"), "abc");
    assert!(!git_head(false, b"").is_empty());
    assert_eq!(git_head(false, b"abc\n"), "unknown");
    assert_eq!(git_head(true, b" \n"), "unknown");
}

#[test]
fn records_name_their_artifacts() {
    let record = mode_record(
        "ramp",
        ModeOutcome {
            passed: false,
            preflight_passed: true,
            exit_code: -1,
        },
        "t0",
        "t1",
        "/w/ramp",
    );
    assert_eq!(record.get_text("status"), Some("FAIL"));
    assert_eq!(record.get_text("preflightStatus"), Some("PASS"));
    assert_eq!(record.get("exitCode"), Some(&Json::Negative(-1)));
    assert_eq!(record.get_text("log"), Some("/w/ramp/run.log"));
    assert_eq!(record.get_text("assertions"), Some("/w/ramp/assertions.jsonl"));
}

#[test]
fn manifests_tell_of_a_run_that_goes_on() {
    let c = config(&[]);
    let manifest = matrix_manifest("RUNNING", "t0", &None, "abc", "/w", "/w/r.jsonl", &c);
    assert_eq!(manifest.get("finishedAt"), Some(&Json::Null));
    assert_eq!(manifest.get_text("runId"), Some("run-1"));
    assert_eq!(
        manifest.get_list("modes").map(|m| m.len()),
        Some(c.modes.len())
    );
}

#[test]
fn agent_options_are_read() {
    let o = parse_options(&words(&["--stdio", "--bind", "0.0.0.0:9"])).expect("options");
    assert!(o.stdio && !o.print_tools);
    assert_eq!(o.bind_addr, "0.0.0.0:9");
    assert_eq!(parse_options(&words(&[])).unwrap().bind_addr, "127.0.0.1:4040");
    assert!(parse_options(&words(&["--bind"])).is_none());
    assert!(parse_options(&words(&["--other"])).is_none());
}

#[test]
fn agent_signs_in_with_what_it_has() {
    assert!(matches!(select_auth(&None, &None), HttpAgentAuth::Anonymous));
    assert!(matches!(
        select_auth(&None, &Some("t".to_string())),
        HttpAgentAuth::BearerToken(_)
    ));
    assert!(matches!(
        select_auth(&Some("c".to_string()), &None),
        HttpAgentAuth::SessionCookie(_)
    ));
    assert_eq!(
        allowed_origins(&Some("http://a, http://b".to_string())),
        words(&["http://a", "http://b"])
    );
    assert!(base_url(&None).starts_with("http://"));
}
