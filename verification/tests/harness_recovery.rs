use restream::domain::stage::StageKind;
use restream::db::set_ingest_host;
use restream::ffmpeg_extract::temp_file_name;
use restream::harness::commands::default_restream_bin;
use restream::harness::crypto::HarnessSrtCrypto;
use restream::harness::egress::{plan_bframe, plan_hevc_rtmp, plan_srt_to_rtmp};
use restream::harness::faults::{
    file_end_survived, output_cleaned_up, preview_stopped, recording_stopped, restart_after_end,
    rtmp_disconnect_told, rtmp_sink_loss_survived, srt_sink_loss_survived, transcoder_stopped,
    FileEnd, PreviewStop, RecordingStop, TargetReturn, TranscoderStop, TranscoderWatch,
};
use restream::harness::graph::probe_has_both;
use restream::harness::judge::sink_received;
use restream::harness::logs::log_event_type;
use restream::harness::measure::list_length;
use restream::harness::mixed::mixed_mode;
use restream::harness::recovery::{
    check_runs_again, plan_rtmp_drop, retry_gap_survived, rtmp_drop_survived, srt_drop_survived,
    upload_timeout_survived, PublisherDrop, RetryGap, RetryWatch, ScenarioPorts, SinkLossWatch,
    UploadTimeout,
};
use restream::harness::results::{
    all_passed, file_end_record, history_record, input_off_record, plan_egress_retry, plan_fault,
    plan_recovery, plan_resilience, preview_stop_record, recording_stop_record, retry_gap_record,
    rtmp_disconnect_record, rtmp_drop_record, rtmp_sink_loss_record, run_record, scenarios_verdict,
    srt_drop_record, srt_sink_loss_record, transcoder_stop_record, upload_timeout_record, Fault,
};
use restream::harness::logs::HistoryReport;
use restream::harness::waits::RecordingState;
use restream::harness::scenario::{Script, Step};
use restream::harness::setup::env_secs;
use restream::harness::sink::{transcode_to_h264_passed, GeneralizedSinkMetrics};
use restream::harness::status::copy_input;
use restream::harness::suite::{
    after_batch, ensure_measurement_profile, free_mebibytes, goes_on, mode_command,
    parse_suite_options, preflight_passes, suite_work_root, Batch, PreflightFindings,
};
use restream::harness::sweep::{
    ingest_only_meta, no_bitrates_message, parse_string_set, ResourceSweepLifecycle, SweepConfig,
};
use restream::harness::uploads::{first_segment_in, upload_probe_passed, SinkFile};
use restream::harness::verdicts::{preview_url, snapshot_line};
use restream::harness::waits::{
    check_input_off, created_pipeline_id, no_media_message, not_off_message, playlist_ready,
    preview_active,
};
use restream::json::Json;

fn text(value: &str) -> Json {
    Json::Text(value.to_string())
}

fn object(fields: Vec<(&str, Json)>) -> Json {
    Json::Object(
        fields
            .into_iter()
            .map(|(name, value)| (name.to_string(), value))
            .collect(),
    )
}

fn running() -> Json {
    object(vec![
        ("status", text("running")),
        ("retrying", Json::Bool(false)),
        ("bytesOut", Json::Unsigned(9)),
    ])
}

fn retrying() -> Json {
    object(vec![
        ("status", text("retrying")),
        ("retrying", Json::Bool(true)),
        ("phase", text("failed")),
        ("failurePhase", text("upload_segment")),
        ("lastError", text("Upload TIMED OUT")),
        ("retryAttempts", Json::Unsigned(2)),
        ("retryBackoffMs", Json::Unsigned(5_000)),
    ])
}

fn live_input() -> Json {
    object(vec![
        ("status", text("on")),
        ("probeStatus", text("ready")),
        ("recentDisconnectError", Json::Bool(false)),
    ])
}

fn lost_input() -> Json {
    object(vec![
        ("status", text("off")),
        ("lastSessionProtocol", text("rtmp")),
        ("lastDisconnectReason", text("publisher disconnected")),
        ("lastFailurePhase", text("disconnect")),
        ("recentDisconnectError", Json::Bool(false)),
        ("lastDisconnectAt", text("2026-01-01T00:00:00Z")),
        ("disconnectGraceActive", Json::Bool(true)),
        ("disconnectGraceRemainingMs", Json::Unsigned(4_000)),
    ])
}

fn health_with(output: Json) -> Json {
    let pipeline = object(vec![
        ("input", lost_input()),
        ("outputs", object(vec![("o1", output)])),
        ("hlsPreview", object(vec![("active", Json::Bool(true))])),
    ]);
    object(vec![("pipelines", object(vec![("p1", pipeline)]))])
}

fn dropped() -> PublisherDrop {
    PublisherDrop {
        baseline_video: 10,
        baseline_connections: 1,
        gap_connections: 1,
        gap_status: Some(running()),
        gap_input: lost_input(),
        resumed: true,
        final_connections: 1,
        final_status: Some(running()),
        final_input: live_input(),
    }
}

#[test]
fn short_loss_of_the_publisher_is_survived() {
    assert!(rtmp_drop_survived(&dropped()));
    let late = Some("late".to_string());
    assert!(srt_drop_survived(&dropped(), &None, &None));
    assert!(!srt_drop_survived(&dropped(), &late, &None));
    assert!(!srt_drop_survived(&dropped(), &None, &late));
    let record = rtmp_drop_record(dropped());
    assert_eq!(record.get_text("test"), Some("transient-rtmp-drop-preserves-egress"));
    assert_eq!(record.get_bool("passed"), Some(true));
    assert_eq!(record.get_bool("gapGraceRemainingBounded"), Some(true));
    assert!(record.copy_field("gapInputSnapshot") == lost_input());
    let record = srt_drop_record(dropped(), &late, &None);
    assert_eq!(record.get_bool("passed"), Some(false));
    assert_eq!(record.get_bool("gapInputOff"), Some(false));
    assert_eq!(record.get_text("gapOffError"), Some("late"));
    assert!(record.copy_field("mediaReadyError") == Json::Null);
    let mut d = dropped();
    d.final_connections = 2;
    assert!(!rtmp_drop_survived(&d));
    let mut d = dropped();
    d.baseline_video = 9;
    assert!(!rtmp_drop_survived(&d));
    let mut d = dropped();
    d.gap_status = Some(retrying());
    assert!(!rtmp_drop_survived(&d));
    let mut d = dropped();
    d.final_input = lost_input();
    assert!(!rtmp_drop_survived(&d));
}

#[test]
fn retry_that_outlives_the_publisher_is_survived() {
    let mut retry = RetryWatch::new();
    let health = Some(health_with(retrying()));
    assert!(!retry.observe(&Some(running()), &None, "p1", "o1"));
    assert!(retry.observe(&Some(retrying()), &health, "p1", "o1"));
    assert_eq!(retry.retry_attempts, Some(2));
    assert_eq!(retry.retry_backoff_ms, Some(5_000));
    let mut gap = RetryGap {
        baseline_video: 10,
        retry,
        off_error: None,
        gap_status: Some(retrying()),
        gap_output: retrying(),
        gap_input: lost_input(),
        media_error: None,
        recovered: true,
        final_status: Some(running()),
        final_input: live_input(),
    };
    assert!(retry_gap_survived(&gap));
    gap.recovered = false;
    assert!(!retry_gap_survived(&gap));
    gap.recovered = true;
    gap.final_status = Some(retrying());
    assert!(!retry_gap_survived(&gap));
    gap.final_status = Some(running());
    gap.media_error = Some("no media".to_string());
    assert!(!retry_gap_survived(&gap));
    let record = retry_gap_record(gap, "running");
    assert_eq!(record.get_bool("passed"), Some(false));
    assert_eq!(record.get_text("mediaReadyError"), Some("no media"));
    assert_eq!(record.get_u64("retryAttempts"), Some(2));
    assert_eq!(record.get_bool("gapDisconnectVisible"), Some(true));
    assert_eq!(record.get_text("recoveryStatus"), Some("running"));
}

#[test]
fn hanging_target_is_given_up_in_time() {
    let mut retry = RetryWatch::new();
    assert!(retry.observe(&Some(retrying()), &Some(health_with(retrying())), "p1", "o1"));
    let requests = vec![
        object(vec![
            ("file", text("out.m3u8")),
            ("contentType", text("application/vnd.apple.mpegurl")),
        ]),
        object(vec![
            ("file", text("seg00001.ts")),
            ("contentType", text("video/mp2t")),
        ]),
    ];
    let mut u = UploadTimeout {
        retry,
        artifacts_found: true,
        requests: Some(requests),
        recovered: true,
        final_status: Some(running()),
        final_bytes_out: 9,
    };
    assert!(upload_timeout_survived(&u));
    u.final_bytes_out = 0;
    assert!(!upload_timeout_survived(&u));
    u.final_bytes_out = 9;
    u.retry.error = "connection reset".to_string();
    assert!(!upload_timeout_survived(&u));
    u.retry.error = "deadline has elapsed".to_string();
    u.retry.failure_phase = "connect".to_string();
    assert!(!upload_timeout_survived(&u));
    u.retry.failure_phase = "upload_playlist".to_string();
    assert!(upload_timeout_survived(&u));
    u.requests = None;
    assert!(!upload_timeout_survived(&u));
    let record = upload_timeout_record(u, "running");
    assert_eq!(record.get_bool("contentTypesCorrect"), Some(false));
    assert_eq!(record.get_bool("timeoutErrorVisible"), Some(true));
    assert_eq!(record.get_text("retryFailurePhase"), Some("upload_playlist"));
    assert!(record.copy_field("finalStatus") == running());
}

#[test]
fn output_runs_again_once_it_delivers() {
    assert!(check_runs_again(&running()));
    assert!(!check_runs_again(&retrying()));
    assert!(!check_runs_again(&object(vec![("status", text("running"))])));
}

#[test]
fn lost_target_is_seen_and_comes_back() {
    let mut loss = SinkLossWatch::new();
    assert!(!loss.observe(&Some(running()), &None, "p1", "o1"));
    assert!(loss.observe(&Some(retrying()), &Some(health_with(retrying())), "p1", "o1"));
    let mut back = TargetReturn::new();
    assert!(!back.observe(&Some(retrying()), 9));
    assert_eq!(back.status, "retrying");
    assert!(back.observe(&Some(running()), 10));
    assert!(rtmp_sink_loss_survived(&loss, &back, &Some(running())));
    assert!(!rtmp_sink_loss_survived(&loss, &back, &Some(retrying())));
    assert!(srt_sink_loss_survived(&loss, &Some(retrying())));
    assert!(!srt_sink_loss_survived(&loss, &Some(running())));
    assert!(!rtmp_sink_loss_survived(&loss, &TargetReturn::new(), &Some(running())));
    let record = rtmp_sink_loss_record(&loss, &back, &Some(running()), 1_234);
    assert_eq!(record.get_bool("passed"), Some(true));
    assert_eq!(record.get_u64("elapsedMs"), Some(1_234));
    assert_eq!(record.get_text("recoveryStatus"), Some("running"));
    let record = srt_sink_loss_record(&loss, &None, 5);
    assert_eq!(record.get_bool("passed"), Some(false));
    assert_eq!(record.get_bool("finalRetrying"), Some(false));
}

#[test]
fn loss_of_the_input_ends_what_depends_on_it() {
    assert!(rtmp_disconnect_told(&lost_input()));
    assert!(!rtmp_disconnect_told(&live_input()));
    let record = rtmp_disconnect_record(&None, lost_input(), 7);
    assert_eq!(record.get_bool("passed"), Some(true));
    let record = rtmp_disconnect_record(&Some("late".to_string()), lost_input(), 7);
    assert_eq!(record.get_bool("passed"), Some(false));
    assert_eq!(record.get_bool("disconnectFieldsOk"), Some(true));
    let record = input_off_record("file-ingest-stop", &None, 7);
    assert_eq!(record.get_text("test"), Some("file-ingest-stop"));
    assert!(record.copy_field("error") == Json::Null);

    let mut seen = RecordingStop {
        active_error: None,
        off_error: None,
        inactive: Ok(RecordingState {
            enabled: true,
            active: false,
        }),
        file_found: true,
    };
    assert!(recording_stopped(&seen));
    seen.file_found = false;
    assert!(!recording_stopped(&seen));
    seen.file_found = true;
    seen.inactive = Err("late".to_string());
    assert!(!recording_stopped(&seen));
    let record = recording_stop_record(&seen, 9);
    assert_eq!(record.get_bool("recordingEnabled"), Some(false));
    assert_eq!(record.get_bool("recordingActive"), Some(true));
    assert_eq!(record.get_text("recordingInactiveError"), Some("late"));

    let mut seen = TranscoderStop {
        watch: TranscoderWatch::new(),
        off_error: None,
        last_children: u64::MAX,
        last_buffers: u64::MAX,
        final_status: None,
    };
    assert!(!seen.watch.observe(1, None, 0));
    assert!(seen.watch.observe(1, Some(2), 7));
    assert!(!seen.look(0, None));
    assert_eq!(seen.last_buffers, u64::MAX);
    assert!(!seen.look(1, Some(0)));
    assert!(!transcoder_stopped(&seen));
    assert!(seen.look(0, Some(0)));
    assert!(transcoder_stopped(&seen));
    let record = transcoder_stop_record(&seen, 9);
    assert_eq!(record.get_u64("peakTranscoderBuffers"), Some(2));
    assert_eq!(record.get_u64("finalFfmpegChildren"), Some(0));
    seen.final_status = Some(running());
    assert!(!transcoder_stopped(&seen));
    let ended = object(vec![
        ("status", text("stopped")),
        ("endedAt", text("2026-01-01T00:00:00Z")),
    ]);
    assert!(output_cleaned_up(&Some(ended)));
    assert!(output_cleaned_up(&Some(object(vec![("error", text("not found"))]))));
    assert!(!output_cleaned_up(&Some(object(vec![("status", text("stopped"))]))));

    let mut seen = PreviewStop {
        playlist: Ok((200, "#EXTM3U\n".to_string())),
        active_error: None,
        off_error: None,
        inactive_error: None,
        last_status: 404,
    };
    assert!(preview_stopped(&seen));
    assert_eq!(preview_stop_record(&seen, 1).get_u64("playlistStatus"), Some(200));
    seen.last_status = 200;
    assert!(!preview_stopped(&seen));
    seen.playlist = Err("late".to_string());
    let record = preview_stop_record(&seen, 1);
    assert_eq!(record.get_u64("playlistStatus"), Some(404));
    assert_eq!(record.get_text("playlistError"), Some("late"));
    assert_eq!(record.get_bool("finalPlaylistGone"), Some(false));

    assert!(restart_after_end(true, true).is_ok());
    assert_eq!(
        restart_after_end(true, false).unwrap_err(),
        "skipped restart because EOF cleanup did not complete"
    );
    let mut seen = FileEnd {
        running_error: None,
        off_error: None,
        stopped_error: None,
        restart_error: None,
    };
    assert!(file_end_survived(&seen));
    seen.restart_error = Some("no".to_string());
    assert!(!file_end_survived(&seen));
    assert_eq!(file_end_record(&seen, 1).get_text("restartError"), Some("no"));
}

#[test]
fn run_passes_where_every_record_does() {
    let good = || rtmp_drop_record(dropped());
    let bad = || input_off_record("srt-publisher-disconnect", &Some("late".to_string()), 1);
    assert!(all_passed(&vec![good(), good()]));
    assert!(!all_passed(&vec![good(), bad()]));
    assert!(!all_passed(&vec![Json::Null]));
    assert!(scenarios_verdict("recovery", &vec![good()]).is_ok());
    assert_eq!(
        scenarios_verdict("recovery", &vec![good(), bad()]).unwrap_err(),
        "recovery: not all tests passed"
    );
    let report = HistoryReport {
        pipeline_logs: 3,
        correlated_logs: 2,
        transcoder_logs: 1,
        transcoder_correlated: true,
    };
    let history = history_record(&report, &vec!["egress.failed".to_string()]);
    assert_eq!(history.get_u64("correlatedPipelineLogCount"), Some(2));
    let record = run_record("recovery", vec![good(), bad()], Some(history));
    assert_eq!(record.get_bool("passed"), Some(false));
    assert_eq!(record.copy_field("historyContract").get_u64("pipelineLogCount"), Some(3));
    assert!(run_record("recovery", vec![], None).copy_field("historyContract") == Json::Null);
}

fn count(script: &Script, what: fn(&Step) -> bool) -> usize {
    script.steps.iter().filter(|s| what(s)).count()
}

#[test]
fn scripts_leave_nothing_open() {
    let p = ScenarioPorts {
        rtmp: 1935,
        srt: 10080,
        sink: 12935,
        upload: 8990,
    };
    assert_eq!(plan_recovery().len(), 4);
    assert_eq!(plan_egress_retry(), vec![Fault::RtmpSinkLoss, Fault::SrtSinkLoss]);
    let faults = plan_resilience();
    assert_eq!(faults.len(), 13);
    assert_eq!(faults[2..6].to_vec(), plan_recovery());
    let mut scripts = vec![plan_srt_to_rtmp(p), plan_bframe(p), plan_hevc_rtmp(p)];
    for fault in faults {
        scripts.push(plan_fault(fault, p, 15, "dir"));
    }
    for script in scripts {
        assert_eq!(
            count(&script, |s| matches!(s, Step::Publish { .. })),
            count(&script, |s| matches!(s, Step::StopPublisher))
        );
        assert_eq!(
            count(&script, |s| matches!(s, Step::OpenSink { .. })),
            count(&script, |s| matches!(s, Step::CloseSink))
        );
        assert_eq!(count(&script, |s| matches!(s, Step::Judge)), 1);
    }
    let drop = plan_rtmp_drop(p, 15);
    assert!(matches!(&drop.steps[0], Step::CreatePipeline { name } if name == "fault-rtmp-transient"));
    assert!(matches!(
        &drop.steps[3],
        Step::Publish { url, format: "flv", all_streams: false }
            if url == "rtmp://127.0.0.1:1935/live/fault-rtmp-transient"
    ));
}

#[test]
fn sink_judges_what_it_received() {
    let mut m = GeneralizedSinkMetrics::new();
    for at in 0..30 {
        m.receive_video(&[0x17, 0, 0], at * 40);
    }
    assert!(!sink_received(&m, 30));
    m.receive_audio(&[0xAF, 1], 0);
    assert!(sink_received(&m, 30));
    assert!(!sink_received(&m, 31));
    assert_eq!(m.keyframe_count, 30);
    assert_eq!(m.bytes, 92);
    assert!(transcode_to_h264_passed(&m));
    m.receive_video(&[0x27], 0);
    assert!(!transcode_to_h264_passed(&m));
    m.messages = u64::MAX;
    m.receive_audio(&[], 1);
    assert_eq!(m.messages, 0);
}

#[test]
fn suite_runs_batch_after_batch() {
    assert_eq!(after_batch(Batch::Parallel { from: 0, to: 3 }), Some(3));
    assert_eq!(after_batch(Batch::Single { at: 3 }), Some(4));
    assert_eq!(after_batch(Batch::Over), None);
    assert_eq!(mode_command("recovery", false), "recovery");
    assert_eq!(mode_command("recovery", true), "preflight");
    assert!(goes_on(false, true));
    assert!(!goes_on(false, false));
    let options = parse_suite_options(false, "r1", &None, &vec![]).unwrap();
    assert_eq!(suite_work_root("/repo", &options), "/repo/test/artifacts/r1");
    let options = parse_suite_options(false, "r1", &Some("out".to_string()), &vec![]).unwrap();
    assert_eq!(suite_work_root("/repo", &options), "/repo/out");
}

#[test]
fn measurements_need_the_bench_profile() {
    assert!(ensure_measurement_profile("api-smoke", &vec![], false, false).is_ok());
    assert!(ensure_measurement_profile("preflight", &vec![], true, true).is_ok());
    let message = ensure_measurement_profile("preflight", &vec![], true, false).unwrap_err();
    assert!(message.starts_with("preflight requires bench-profile binaries"));
}

#[test]
fn preflight_fails_on_a_full_disk() {
    assert_eq!(free_mebibytes(4096, 512), 2);
    let mut f = PreflightFindings {
        binary_ok: true,
        missing_tools: vec![],
        free_mb: Some(2048),
        min_free_mb: 2048,
        harness_is_bench: true,
        restream_is_bench: true,
    };
    assert!(preflight_passes(&f));
    f.free_mb = None;
    assert!(preflight_passes(&f));
    f.free_mb = Some(2047);
    assert!(!preflight_passes(&f));
    f.free_mb = None;
    f.missing_tools.push("curl".to_string());
    assert!(!preflight_passes(&f));
}

#[test]
fn lifecycle_decides_what_stays() {
    assert!(ResourceSweepLifecycle::Isolated.has_own_stack());
    assert!(!ResourceSweepLifecycle::Continuous.has_own_stack());
    assert!(!ResourceSweepLifecycle::Continuous.keeps_what_was_added());
    assert!(ResourceSweepLifecycle::Cumulative.keeps_what_was_added());
}

#[test]
fn names_of_a_sweep() {
    assert_eq!(parse_string_set(&None), None);
    assert_eq!(
        parse_string_set(&Some(" a, ,b".to_string())),
        Some(vec!["a".to_string(), "b".to_string()])
    );
    assert_eq!(no_bitrates_message("X"), "X produced no bitrate values");
    let meta = ingest_only_meta(SweepConfig::H264Srt);
    assert_eq!(meta.scenario, "ingest-only");
    assert_eq!(meta.label, SweepConfig::H264Srt.name());
    assert_eq!(meta.pipelines, 1);
    assert_eq!(meta.outputs, 0);
    assert_eq!(mixed_mode(SweepConfig::H264Srt), "mixed-anchor");
    assert_eq!(mixed_mode(SweepConfig::H265SrtMulti), "mixed-h265-srt-multi");
    assert_eq!(HarnessSrtCrypto::plaintext().transport_label(), "plaintext");
    assert_eq!(HarnessSrtCrypto::encrypted(24).transport_label(), "encrypted-24");
}

#[test]
fn first_full_segment_is_found() {
    let file = |name: &str, nonempty: bool| SinkFile {
        name: name.to_string(),
        nonempty,
    };
    let files = vec![
        file("seg00003.ts", true),
        file("seg00001.ts", false),
        file("out.m3u8", true),
        file("seg00002.ts", true),
    ];
    assert_eq!(first_segment_in(&files), Some(3));
    assert_eq!(first_segment_in(&vec![file("seg00001.ts", false)]), None);
    assert!(upload_probe_passed(true, true, true, &Some(running())));
    assert!(!upload_probe_passed(true, true, false, &Some(running())));
    assert!(!upload_probe_passed(true, true, true, &None));
}

#[test]
fn health_tells_of_input_and_preview() {
    let health = health_with(retrying());
    assert!(check_input_off(&health, "p1"));
    assert!(!check_input_off(&health, "p2"));
    assert!(preview_active(&health, "p1"));
    assert!(!preview_active(&health, "p2"));
    let input = copy_input(&Some(health), "p1");
    assert_eq!(input.get_text("lastSessionProtocol"), Some("rtmp"));
    assert!(copy_input(&None, "p1") == Json::Null);
    assert!(playlist_ready(true, "#EXTM3U\n#EXTINF:2"));
    assert!(!playlist_ready(false, "#EXTM3U"));
    assert!(!playlist_ready(true, ""));
    assert_eq!(not_off_message("p1", 5), "p1: ingest did not go off within 5s");
    assert_eq!(
        no_media_message("p1", 5, "null"),
        "p1: ingest went live but media probe was incomplete within 5s; last snapshot=null"
    );
}

#[test]
fn answers_name_what_was_created() {
    let answer = object(vec![("pipeline", object(vec![("id", text("p1"))]))]);
    assert_eq!(created_pipeline_id(&answer).unwrap(), "p1");
    assert_eq!(
        created_pipeline_id(&Json::Null).unwrap_err(),
        "pipeline create response missing pipeline.id"
    );
    let telemetry = object(vec![("egresses", Json::List(vec![Json::Null, Json::Null]))]);
    assert_eq!(list_length(&telemetry, "egresses"), 2);
    assert_eq!(list_length(&telemetry, "stages"), 0);
    let log = object(vec![("eventType", text("egress.failed"))]);
    assert_eq!(log_event_type(&log), Some("egress.failed"));
    assert_eq!(log_event_type(&Json::Null), None);
    let stream = |kind: &str| object(vec![("codec_type", text(kind))]);
    let probe = |all: Vec<Json>| object(vec![("streams", Json::List(all))]);
    assert!(probe_has_both(&probe(vec![stream("audio"), stream("video")])));
    assert!(!probe_has_both(&probe(vec![stream("video")])));
}

#[test]
fn names_of_files_and_lines() {
    assert_eq!(temp_file_name(7, -3), "ffmpeg.tmp.7.-3");
    assert_eq!(set_ingest_host("  host \n"), "host");
    assert_eq!(preview_url(3030, "p1"), "http://127.0.0.1:3030/hls/p1/index.m3u8");
    assert_eq!(
        snapshot_line("cfg", "baseline", "1.5", 10, 2, 30),
        "cfg,\"baseline\",1.5,10,2,30\n"
    );
    assert_eq!(env_secs(&Some("7".to_string()), 3), 7);
    assert_eq!(env_secs(&Some("x".to_string()), 3), 3);
    let some = |s: &str| Some(s.to_string());
    assert_eq!(default_restream_bin(&some("/bin/r"), &some("/x"), true), "/bin/r");
    assert_eq!(default_restream_bin(&None, &some("/x"), true), "/x");
    assert_eq!(
        default_restream_bin(&None, &some("/x"), false),
        "target/release/restream"
    );
    assert!(StageKind::video_preset("720p").is_video_preset());
}
