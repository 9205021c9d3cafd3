use restream::reconcile::{
    attempt_end, attempt_stages, decide_output_start_action, decide_output_stop_action,
    decide_recording_action, egress_route, next_output_retry_count, prune_due, reconcile_output,
    recording_enabled, recording_key, retain_live_sessions, segmenter_action, settle_attempt,
    shutdown_steps, sweeps_segmenter, AttemptEnd, EgressRoute, Failure, FailureTable, OutputEffect,
    OutputFailureWindow, OutputObservation, OutputStartAction, OutputStopAction, RecordingAction,
    SegmenterAction, ShutdownStep,
};
use restream::runtime::{OutputRetryPolicy, RuntimeTuning};

fn policy() -> OutputRetryPolicy {
    RuntimeTuning::default().output_retry_policy()
}

fn seen(is_active: bool, has_ingest: bool) -> OutputObservation {
    OutputObservation {
        is_active,
        has_ingest,
        within_disconnect_grace: false,
    }
}

#[test]
fn failure_table_is_a_map() {
    let mut table = FailureTable::new();
    assert_eq!(table.get("a"), None);
    let first = Failure {
        failed_at_ms: 1,
        retries: 1,
    };
    let second = Failure {
        failed_at_ms: 2,
        retries: 2,
    };
    table.insert("a", first);
    table.insert("b", first);
    table.insert("a", second);
    assert_eq!(table.get("a"), Some(second));
    table.remove("a");
    assert_eq!(table.get("a"), None);
    assert_eq!(table.get("b"), Some(first));
}

#[test]
fn output_is_started_when_it_is_due() {
    assert_eq!(
        decide_output_start_action("running", false, true, None, policy()),
        OutputStartAction::StartNow
    );
    assert_eq!(
        decide_output_start_action("running", false, false, None, policy()),
        OutputStartAction::SkipNoIngest
    );
    assert_eq!(
        decide_output_start_action("running", true, true, None, policy()),
        OutputStartAction::NotApplicable
    );
    assert_eq!(
        decide_output_start_action("stopped", false, true, None, policy()),
        OutputStartAction::NotApplicable
    );
}

#[test]
fn failed_output_waits_for_its_backoff_and_is_given_up() {
    let window = |retries, elapsed_ms| {
        Some(OutputFailureWindow {
            retries,
            elapsed_ms,
        })
    };
    assert_eq!(
        decide_output_start_action("running", false, true, window(1, 4_000), policy()),
        OutputStartAction::WaitRetry {
            retries: 1,
            backoff_ms: 10_000,
            remaining_ms: 6_000
        }
    );
    assert_eq!(
        decide_output_start_action("running", false, true, window(1, 10_000), policy()),
        OutputStartAction::StartNow
    );
    assert_eq!(
        decide_output_start_action("running", false, true, window(10, 0), policy()),
        OutputStartAction::MarkFailed
    );
}

#[test]
fn output_is_stopped_when_unwanted_or_without_ingest() {
    assert_eq!(
        decide_output_stop_action("running", true, true),
        OutputStopAction::KeepRunning
    );
    assert_eq!(
        decide_output_stop_action("running", true, false),
        OutputStopAction::StopBecauseIngestLost
    );
    assert_eq!(
        decide_output_stop_action("stopped", true, true),
        OutputStopAction::StopRequested
    );
}

#[test]
fn tick_starts_an_output_and_grace_keeps_it() {
    let mut failures = FailureTable::new();
    let effects = reconcile_output(&mut failures, "o", "running", seen(false, true), 0, policy());
    assert!(effects.contains(&OutputEffect::StartAttempt));
    let lost = OutputObservation {
        is_active: true,
        has_ingest: false,
        within_disconnect_grace: true,
    };
    let effects = reconcile_output(&mut failures, "o", "running", lost, 0, policy());
    assert!(!effects
        .iter()
        .any(|e| matches!(e, OutputEffect::StopEgress { .. })));
    let effects = reconcile_output(&mut failures, "o", "running", seen(true, false), 0, policy());
    assert!(effects.contains(&OutputEffect::StopEgress { ingest_lost: true }));
}

#[test]
fn failed_attempt_is_counted_and_a_cancelled_one_forgotten() {
    let tuning = RuntimeTuning::default();
    let mut failures = FailureTable::new();
    let failed = AttemptEnd {
        cancelled: false,
        had_progress: false,
        was_current: true,
    };
    let settled = settle_attempt(&mut failures, "o", failed, 500, &tuning);
    assert!(settled.retry.is_some());
    assert_eq!(failures.get("o").map(|f| f.failed_at_ms), Some(500));
    let cancelled = AttemptEnd {
        cancelled: true,
        ..failed
    };
    let settled = settle_attempt(&mut failures, "o", cancelled, 600, &tuning);
    assert!(settled.retry.is_none());
    assert_eq!(failures.get("o"), None);
}

#[test]
fn retries_count_up_until_there_is_progress() {
    let before = Some(Failure {
        failed_at_ms: 0,
        retries: 3,
    });
    assert_eq!(next_output_retry_count(before, false), 4);
    assert_eq!(next_output_retry_count(before, true), 1);
    assert_eq!(next_output_retry_count(None, false), 1);
}

#[test]
fn schemes_lead_to_routes() {
    assert_eq!(egress_route("rtmp://h/live/k"), Some(EgressRoute::Rtmp));
    assert_eq!(egress_route("srt://h:1"), Some(EgressRoute::Srt));
    assert_eq!(egress_route("hls://preview"), Some(EgressRoute::HlsPreview));
    assert_eq!(egress_route("https://h/upload"), Some(EgressRoute::HlsPut));
    assert_eq!(egress_route("ftp://h"), None);
}

#[test]
fn attempts_name_their_stages() {
    let stages = attempt_stages("p", "720p+atrack:0", "rtmp://h/live/k", false);
    assert!(stages.video.is_some() && stages.audio.is_some());
    let stages = attempt_stages("p", "source", "srt://h:1", true);
    assert!(stages.video.is_none() && stages.audio.is_none() && stages.codec_edge.is_none());
    let stages = attempt_stages("p", "source", "rtmp://h/live/k", true);
    assert!(stages.codec_edge.is_some());
}

#[test]
fn recordings_follow_what_is_wanted() {
    assert_eq!(decide_recording_action(true, true, false), RecordingAction::Start);
    assert_eq!(decide_recording_action(true, false, true), RecordingAction::Stop);
    assert_eq!(decide_recording_action(false, true, true), RecordingAction::Stop);
    assert_eq!(decide_recording_action(true, true, true), RecordingAction::Keep);
    assert_eq!(recording_key("p1"), "recording_enabled:p1");
    assert!(recording_enabled(&Some("1".to_string())));
    assert!(!recording_enabled(&Some("true".to_string())));
    assert!(!recording_enabled(&None));
}

#[test]
fn segmenters_are_shared_and_swept() {
    assert_eq!(segmenter_action(true, true), SegmenterAction::Join);
    assert_eq!(segmenter_action(false, true), SegmenterAction::StartAndJoin);
    assert_eq!(segmenter_action(false, false), SegmenterAction::GiveUp);
    assert!(sweeps_segmenter(false, true));
    assert!(!sweeps_segmenter(true, true));
}

#[test]
fn sessions_are_pruned_about_once_an_hour() {
    assert!(prune_due(3_600, 3_600));
    assert!(!prune_due(3_601, 3_600));
}

#[test]
fn live_sessions_stay() {
    let sessions = vec!["a".to_string(), "b".to_string()];
    assert_eq!(
        retain_live_sessions(sessions.clone(), &Some(vec!["b".to_string()])),
        vec!["b".to_string()]
    );
    assert_eq!(retain_live_sessions(sessions.clone(), &None), sessions);
}

#[test]
fn database_is_closed_after_the_tasks() {
    let steps = shutdown_steps();
    let at = |wanted: ShutdownStep| steps.iter().position(|s| *s == wanted).unwrap();
    assert!(at(ShutdownStep::CancelActiveTasks) < at(ShutdownStep::CloseDatabase));
    assert!(at(ShutdownStep::JoinOsThreads) < at(ShutdownStep::CloseDatabase));
}

#[test]
fn refused_attempt_counts_as_failed() {
    let tuning = RuntimeTuning::default();
    let mut failures = FailureTable::new();
    let refused = attempt_end("ftp://h/live", true, true, true);
    assert_eq!(
        refused,
        AttemptEnd {
            cancelled: false,
            had_progress: false,
            was_current: true,
        }
    );
    let settled = settle_attempt(&mut failures, "o", refused, 500, &tuning);
    assert_eq!(settled.job_status, "failed");
    assert_eq!(failures.get("o").map(|f| f.retries), Some(1));
    let stopped = attempt_end("srt://h:1", true, true, true);
    assert_eq!(settle_attempt(&mut failures, "o", stopped, 600, &tuning).job_status, "stopped");
    let lost = attempt_end("https://h/up", false, true, false);
    assert_eq!(settle_attempt(&mut failures, "o", lost, 700, &tuning).job_status, "failed");
    assert_eq!(failures.get("o"), None);
}
