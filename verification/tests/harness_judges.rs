use restream::harness::crypto::{
    append_srt_crypto, harness_srt_crypto_from_env, parse_srt_crypto_variants, HarnessSrtCrypto,
};
use restream::harness::faults::{find_ingest_id, is_recording_file, TranscoderWatch};
use restream::harness::graph::{
    burst_check_passed, graph_active_node_count, graph_ring_readers, probe_audio_track_count,
    video_dimensions,
};
use restream::harness::judge::{
    check_source_is_hevc, egress_passed, judge_created, judge_passthrough, judge_read,
    judge_recording, judge_survived, protocol_trial, RecordingLook,
};
use restream::harness::logs::verify_live_history_contract;
use restream::harness::probe::{
    assert_media_only, count_bframe_packets, count_video_packets, video_dts_monotone, PacketTimes,
};
use restream::harness::ramp::Protocol;
use restream::harness::recovery::SinkLossWatch;
use restream::harness::sink::{
    bframe_fault, bframe_message, detect_audio_codec, detect_video_codec, sink_probe_passed,
    GeneralizedSinkMetrics,
};
use restream::harness::suite::{
    check_disk, next_batch, parse_suite_options, suite_manifest, suite_result_record, Batch,
    CheckStatus,
};
use restream::harness::uploads::{
    content_types_ok, hls_put_sink_file_name, hls_put_sink_target, is_segment_file,
    read_hls_put_requests, validate_hls_playlist,
};
use restream::harness::verdicts::{
    count_log_matches, effective_log_paths, end_of_run, gain_line, probe_failure, result_record,
    ring_verdict, sharing_verdict, size_in_output, smoke_verdict, tail_lines, AudioProbe,
    AudioWatch, EndOfRun, RingReading,
};
use restream::harness::sweep::StreamWatch;
use restream::harness::waits::{
    all_outputs_stopped, check_input_live, check_media_ready, created_output_id, look,
    no_progress_message, not_live_message, pipeline_takes_in, recording_message, recording_state,
    stalled_outputs, Look,
};
use restream::json::Json;

fn text(value: &str) -> Json {
    Json::Text(value.to_string())
}

fn number(n: u64) -> Json {
    Json::Unsigned(n)
}

fn object(fields: Vec<(&str, Json)>) -> Json {
    Json::Object(
        fields
            .into_iter()
            .map(|(name, value)| (name.to_string(), value))
            .collect(),
    )
}

fn list(items: Vec<Json>) -> Json {
    Json::List(items)
}

fn texts(all: &[&str]) -> Vec<String> {
    all.iter().map(|w| w.to_string()).collect()
}

fn video() -> Json {
    object(vec![
        ("codec_type", text("video")),
        ("codec_name", text("h264")),
        ("width", number(1920)),
        ("height", number(1080)),
    ])
}

fn audio() -> Json {
    object(vec![
        ("codec_type", text("audio")),
        ("codec_name", text("aac")),
        ("sample_rate", text("48000")),
        ("channels", number(2)),
    ])
}

fn probe(streams: Vec<Json>) -> Json {
    object(vec![("streams", list(streams))])
}

fn snapshot(width: u64) -> Json {
    object(vec![(
        "input",
        object(vec![
            ("status", text("on")),
            ("bytesReceived", number(5)),
            (
                "video",
                object(vec![
                    ("codec", text("h264")),
                    ("width", number(width)),
                    ("height", number(1080)),
                ]),
            ),
            (
                "audioTracks",
                list(vec![object(vec![
                    ("codec", text("aac")),
                    ("sampleRate", number(48_000)),
                    ("channels", number(2)),
                ])]),
            ),
        ]),
    )])
}

#[test]
fn media_are_one_video_and_audio() {
    assert!(assert_media_only(&probe(vec![audio(), video()]), "x").is_ok());
    assert_eq!(
        assert_media_only(&object(vec![]), "x").unwrap_err(),
        "x: ffprobe output has no streams"
    );
    let data = object(vec![("codec_type", text("data"))]);
    assert_eq!(
        assert_media_only(&probe(vec![video(), data]), "x").unwrap_err(),
        "x: expected 1 video + >=1 audio, got video=1 audio=0 non_media=[\"data\"]"
    );
}

#[test]
fn what_is_read_has_to_be_what_the_server_tells() {
    let seen = probe(vec![video(), audio()]);
    let media = judge_read(&snapshot(1920), &seen, "RTMP read", "RTMP").expect("media");
    assert_eq!(media.len(), 2);
    let message = judge_read(&snapshot(640), &seen, "RTMP read", "RTMP").unwrap_err();
    assert!(message.starts_with("RTMP: engine snapshot does not match external probe: snapshot={"));
    assert!(message.contains("\"sampleRate\":\"48000\""));
    assert!(judge_read(&snapshot(1920), &probe(vec![video()]), "RTMP read", "RTMP").is_err());
    assert_eq!(
        judge_read(&object(vec![]), &seen, "RTMP read", "RTMP").unwrap_err(),
        "RTMP: snapshot missing audio"
    );
}

#[test]
fn protocols_are_tried_at_their_addresses() {
    let trial = protocol_trial(Protocol::Srt, 1935, 10080);
    assert_eq!(
        trial.publish_url,
        "srt://127.0.0.1:10080?streamid=publish:live/e2e-srt&pkt_size=1316"
    );
    assert_eq!(
        trial.read_url,
        "srt://127.0.0.1:10080?streamid=read:live/e2e-srt&mode=caller&transtype=live&latency=100"
    );
    let trial = protocol_trial(Protocol::Rtmp, 1935, 10080);
    assert_eq!(trial.publish_url, trial.read_url);
    assert!(!trial.all_streams);
}

#[test]
fn passthrough_keeps_the_codec() {
    let hevc = object(vec![
        ("codec_type", text("video")),
        ("codec_name", text("hevc")),
    ]);
    assert!(judge_passthrough(&probe(vec![audio(), hevc])).passed());
    let changed = judge_passthrough(&probe(vec![audio(), video()]));
    assert!(!changed.passed() && !changed.video_hevc && changed.audio_aac);
    let source = object(vec![("video", object(vec![("codec", text("h264"))]))]);
    assert_eq!(
        check_source_is_hevc(&source).unwrap_err(),
        "source codec is h264, expected hevc"
    );
    assert_eq!(
        check_source_is_hevc(&Json::Null).unwrap_err(),
        "source codec is unknown, expected hevc"
    );
}

#[test]
fn recordings_have_video_and_audio() {
    let judged = |look| judge_recording(&look);
    assert_eq!(
        judged(RecordingLook::NotFound).unwrap_err(),
        "recording file not found in media dir"
    );
    assert_eq!(judged(RecordingLook::TimedOut).unwrap_err(), "ffprobe timed out");
    assert_eq!(
        judged(RecordingLook::Failed {
            stderr: "bad".to_string()
        })
        .unwrap_err(),
        "ffprobe failed: bad"
    );
    assert_eq!(
        judged(RecordingLook::NotRun {
            error: "e".to_string()
        })
        .unwrap_err(),
        "ffprobe error: e"
    );
    assert_eq!(
        judged(RecordingLook::Unreadable {
            error: "e".to_string()
        })
        .unwrap_err(),
        "ffprobe parse failed: e"
    );
    assert_eq!(
        judged(RecordingLook::Probed {
            probe: probe(vec![video()])
        })
        .unwrap_err(),
        "missing streams: video=true audio=false"
    );
    let good = judged(RecordingLook::Probed {
        probe: probe(vec![video(), audio()]),
    });
    assert_eq!(good, Ok(2));
    assert!(egress_passed(true, true, &good));
    assert!(!egress_passed(true, false, &good));
}

#[test]
fn created_pipelines_are_known_and_survive() {
    let pipelines = object(vec![(
        "pipelines",
        list(vec![object(vec![("id", text("p1"))])]),
    )]);
    let health = object(vec![("pipelines", object(vec![("p1", object(vec![]))]))]);
    let well = object(vec![]);
    assert!(judge_created(&well, &pipelines, &health, "p1").is_ok());
    assert_eq!(
        judge_created(&Json::Null, &pipelines, &health, "p1").unwrap_err(),
        "healthz returned null"
    );
    assert_eq!(
        judge_created(&well, &health, &health, "p1").unwrap_err(),
        "pipelines list not an array"
    );
    assert_eq!(
        judge_created(&well, &pipelines, &health, "p2").unwrap_err(),
        "created pipeline p2 not found in list"
    );
    assert_eq!(
        judge_created(&well, &pipelines, &well, "p1").unwrap_err(),
        "pipeline not in health snapshot"
    );
    assert!(judge_survived(&pipelines, "p1").is_ok());
    assert_eq!(
        judge_survived(&pipelines, "p2").unwrap_err(),
        "pipeline p2 did not survive restart"
    );
}

#[test]
fn waits_end_when_it_is_there_or_the_time_is_over() {
    assert_eq!(look(true, true), Look::Done);
    assert_eq!(look(false, true), Look::TimedOut);
    assert_eq!(look(false, false), Look::Again);
    let health = object(vec![("pipelines", object(vec![("p", snapshot(1))]))]);
    assert!(check_input_live(&health, "p"));
    assert!(!check_input_live(&health, "q"));
    assert!(check_media_ready(&snapshot(1)));
    assert!(!check_media_ready(&Json::Null));
    assert_eq!(not_live_message("p", 45), "p: ingest did not go live within 45s");
    let state = recording_state(&health, "p");
    assert_eq!(
        recording_message("p", true, state),
        "recording state for pipeline p did not reach active=true; enabled=false active=false"
    );
    assert_eq!(
        created_output_id(&object(vec![("output", object(vec![("id", text("o"))]))])),
        Ok("o".to_string())
    );
    assert!(created_output_id(&Json::Null).is_err());
}

#[test]
fn outputs_without_progress_are_named() {
    let entry = |bytes| object(vec![("bytesOut", number(bytes)), ("phase", text("connect"))]);
    let health = object(vec![(
        "pipelines",
        object(vec![(
            "p",
            object(vec![("outputs", object(vec![("a", entry(1)), ("b", entry(0))]))]),
        )]),
    )]);
    let stalled = stalled_outputs(&health, "p", &texts(&["a", "b"]));
    assert_eq!(
        stalled,
        texts(&["b[phase=connect,state=unknown,bytesOut=0,metricsBytesOut=0,packetsOut=0,lastError=]"])
    );
    assert!(no_progress_message("p", 2, &stalled)
        .starts_with("outputs did not make progress for pipeline p: 1/2; stalled=b["));
    assert!(!pipeline_takes_in(&health, "p"));
}

#[test]
fn outputs_stop_when_no_job_says_otherwise() {
    let job = |output: &str, status: &str| {
        object(vec![
            ("pipelineId", text("p")),
            ("outputId", text(output)),
            ("status", text(status)),
        ])
    };
    let settings = object(vec![(
        "jobs",
        list(vec![job("a", "stopped"), job("b", "running")]),
    )]);
    assert!(all_outputs_stopped(&settings, "p", &texts(&["a", "unknown"])));
    assert!(!all_outputs_stopped(&settings, "p", &texts(&["a", "b"])));
    assert!(all_outputs_stopped(&Json::Null, "p", &texts(&["a", "b"])));
}

#[test]
fn logs_are_counted_and_cut() {
    let logs = texts(&["xaaax", "aa"]);
    assert_eq!(count_log_matches(&logs, "aa"), 2);
    assert_eq!(count_log_matches(&logs, ""), 6 + 3);
    assert_eq!(tail_lines("a\nb\nc\n", 2), texts(&["b", "c"]));
    assert_eq!(tail_lines("a", 20), texts(&["a"]));
    assert_eq!(
        effective_log_paths("w/r.log", "w/logs", &texts(&["restream.log.2", "other", "restream.log.1"])),
        texts(&["w/logs/restream.log.1", "w/logs/restream.log.2"])
    );
    assert_eq!(
        effective_log_paths("w/r.log", "w/logs", &texts(&["other"])),
        texts(&["w/r.log"])
    );
}

#[test]
fn mixed_checks_are_judged() {
    assert!(smoke_verdict(0).is_ok());
    assert_eq!(
        smoke_verdict(2).unwrap_err(),
        "smoke: external transcoder fired before 720p outputs (2 launches)"
    );
    let ring = |capacity, five_seconds, overflows| RingReading {
        capacity,
        five_seconds,
        depth: "6.1".to_string(),
        overflows,
    };
    assert_eq!(
        ring_verdict("c", &ring(2048, true, 0)).unwrap(),
        "adaptive-ring c: cap=2048 depth=6.1s overflows=0 [resized]"
    );
    assert_eq!(
        ring_verdict("c", &ring(700, false, 0)).unwrap_err(),
        "adaptive ring check failed for c: cap=700 depth=6.1s overflows=0"
    );
    assert!(ring_verdict("c", &ring(2048, true, 1)).is_err());
    assert_eq!(
        sharing_verdict("c", 2, 1, 25).unwrap(),
        "c: TC_STAGES=2 <= 2 (stage sharing confirmed for 100 outputs)"
    );
    assert_eq!(
        sharing_verdict("c", 3, 1, 25).unwrap_err(),
        "c: expected 1..2 active HEVC->H.264 codec-edge stages (got 3; N=25 outputs - sharing broken if >2)"
    );
    assert!(sharing_verdict("c", 0, 1, 25).is_err());
    assert_eq!(end_of_run(true, false), EndOfRun::Failed);
    assert_eq!(end_of_run(false, false), EndOfRun::PausedInstead { secs: 3 });
    assert_eq!(end_of_run(true, true), EndOfRun::Stopped { reported: true });
    assert_eq!(size_in_output("1280,720\n1280,720\n"), "1280x720");
    assert_eq!(size_in_output(""), "");
    assert_eq!(
        probe_failure("HLS/mtx", "1x1", &StreamWatch::new()),
        "ffprobe: HLS/mtx - expected 1x1, got '<no output>'"
    );
    assert_eq!(
        gain_line("c", 1, 2, 3, 4),
        "c,rss_delta_kb=1,per_output_kb=2,ext_ffmpeg_n=3,ext_ffmpeg_rss_kb=4\n"
    );
}

#[test]
fn audio_is_watched() {
    let mut watch = AudioWatch::new();
    assert!(!watch.observe(&Err("e".to_string()), "1280x720", 2));
    assert_eq!(
        watch.failure("l", "1280x720", 2),
        "l: expected 1280x720 with 2 audio tracks, got '<no video>' with <unknown> audio tracks"
    );
    let seen = |dimensions: &str, tracks| {
        Ok(AudioProbe {
            dimensions: dimensions.to_string(),
            tracks,
        })
    };
    assert!(!watch.observe(&seen("1280x720", 1), "1280x720", 2));
    assert_eq!(
        watch.failure("l", "1280x720", 2),
        "l: expected 1280x720 with 2 audio tracks, got '1280x720' with 1 audio tracks"
    );
    assert!(watch.observe(&seen("1280x720", 2), "1280x720", 2));
}

#[test]
fn records_of_checks_take_in_what_is_added() {
    let record = result_record(
        "c",
        "MS-x",
        "pass",
        12,
        vec![
            ("got".to_string(), text("1280x720")),
            ("mode".to_string(), text("other")),
        ],
    );
    assert_eq!(record.get_text("id"), Some("MS-x"));
    assert_eq!(record.get_text("mode"), Some("other"));
    assert_eq!(record.get_u64("ms"), Some(12));
    assert_eq!(record.get_text("got"), Some("1280x720"));
    let record = result_record("c", "MS-x", "pass", 12, Vec::new());
    assert_eq!(record.get_text("mode"), Some("mixed-scale"));
    assert!(record.get("got").is_none());
}

#[test]
fn packets_are_counted_and_ordered() {
    let packet = |pts, dts| PacketTimes { pts, dts };
    let packets = vec![
        packet(Some(2), Some(1)),
        packet(Some(2), Some(2)),
        packet(Some(5), None),
    ];
    assert_eq!(count_video_packets(&packets), 2);
    assert_eq!(count_bframe_packets(&packets), 1);
    assert!(video_dts_monotone(&packets));
    assert!(!video_dts_monotone(&vec![
        packet(Some(1), Some(2)),
        packet(Some(1), Some(1))
    ]));
    let fault = bframe_fault(29, 3, true, true).expect("a fault");
    assert_eq!(
        bframe_message(fault, 29),
        "expected at least 30 video packets, got 29"
    );
    assert_eq!(bframe_fault(30, 1, true, true), None);
}

#[test]
fn sinks_know_codecs_and_times() {
    assert_eq!(detect_video_codec(&[0x17, 0, 0, 0, 0]), Some("h264"));
    assert_eq!(detect_audio_codec(&[0xaf, 1]), Some("aac"));
    assert_eq!(detect_audio_codec(&[0x2f]), Some("mp3"));
    assert_eq!(detect_audio_codec(&[]), None);
    let mut m = GeneralizedSinkMetrics::new();
    m.receive_video(&[0x17, 1], 10);
    m.receive_audio(&[0xaf, 1], 5);
    m.receive_video(&[0x27, 1], 20);
    assert!(sink_probe_passed(&m, 2));
    assert!(!sink_probe_passed(&m, 3));
    m.receive_video(&[0x27, 1], 15);
    assert!(!m.dts_monotone());
    m.receive_connection();
    m.receive_connection();
    m.receive_publisher();
    assert_eq!((m.connections, m.publishing, m.video_count), (2, 1, 3));
}

#[test]
fn graphs_are_read() {
    let reader = |bursts| {
        object(vec![
            ("burstCount", number(bursts)),
            ("avgBurstSize", Json::Real("1.5".to_string())),
        ])
    };
    let ring = |readers| {
        object(vec![
            ("type", text("ring_buffer")),
            ("details", object(vec![("readers", list(readers))])),
        ])
    };
    let edge = |active| {
        object(vec![
            ("type", text("codec_edge")),
            ("active", Json::Bool(active)),
        ])
    };
    let graph = object(vec![(
        "nodes",
        list(vec![ring(vec![reader(1), reader(0)]), edge(true), edge(false)]),
    )]);
    let report = graph_ring_readers(&graph);
    assert_eq!((report.readers, report.bursting), (2, 1));
    assert!(!burst_check_passed(report));
    let steady = object(vec![("nodes", list(vec![ring(vec![reader(3)])]))]);
    assert!(burst_check_passed(graph_ring_readers(&steady)));
    assert!(!burst_check_passed(graph_ring_readers(&Json::Null)));
    assert_eq!(graph_active_node_count(&graph, "codec_edge"), 1);
    assert_eq!(
        video_dimensions(&probe(vec![audio(), video()])),
        Some("1920x1080".to_string())
    );
    assert_eq!(probe_audio_track_count(&probe(vec![audio(), video(), audio()])), 2);
}

#[test]
fn uploads_stay_under_their_directory() {
    assert_eq!(
        hls_put_sink_file_name("/upload", Some("cid=x&file=out.m3u8")),
        Some("out.m3u8".to_string())
    );
    assert_eq!(
        hls_put_sink_target("/a/b.ts", None),
        Some("a/b.ts".to_string())
    );
    assert_eq!(hls_put_sink_target("/u", Some("file=../x")), None);
    assert_eq!(
        hls_put_sink_target("/", None),
        Some("index.m3u8".to_string())
    );
    assert!(is_segment_file("seg0001.ts", "seg"));
    assert!(!is_segment_file("seg0001.m3u8", "seg"));
    assert!(validate_hls_playlist("#EXTM3U\nseg1.ts\n", "x").is_ok());
    assert_eq!(
        validate_hls_playlist("seg1.ts", "x").unwrap_err(),
        "x HLS PUT playlist missing EXTM3U header"
    );
    let body = "{\"file\":\"out.m3u8\",\"contentType\":\"application/vnd.apple.mpegurl\"}\n{\"file\":\"seg1.ts\",\"contentType\":\"video/mp2t\"}\n";
    let requests = read_hls_put_requests(body).expect("requests");
    assert_eq!(requests.len(), 2);
    assert!(content_types_ok(&requests));
    assert!(read_hls_put_requests("not json").is_none());
}

#[test]
fn secrets_are_appended_to_addresses() {
    let crypto = HarnessSrtCrypto::encrypted(16);
    let url = append_srt_crypto("srt://h:1?streamid=x".to_string(), &crypto);
    assert!(url.starts_with("srt://h:1?streamid=x&passphrase="));
    assert_eq!(
        append_srt_crypto("srt://h:1".to_string(), &HarnessSrtCrypto::plaintext()),
        "srt://h:1"
    );
    let variants = parse_srt_crypto_variants("V", "plaintext,enc16,enc16").expect("variants");
    assert_eq!(variants.len(), 2);
    assert!(parse_srt_crypto_variants("V", "rot13").is_err());
    assert!(harness_srt_crypto_from_env(&None, &None).passphrase.is_none());
}

#[test]
fn suites_run_modes_in_batches() {
    let options = parse_suite_options(false, "r", &None, &Vec::new()).expect("options");
    assert!(!options.modes.is_empty());
    let modes = texts(&["correctness-hevc-srt", "recovery", "bitrate-sweep"]);
    assert_eq!(
        next_batch(&modes, 0, false, true),
        Batch::Parallel { from: 0, to: 2 }
    );
    assert_eq!(next_batch(&modes, 2, false, true), Batch::Single { at: 2 });
    assert_eq!(next_batch(&modes, 3, false, true), Batch::Over);
    assert_eq!(next_batch(&modes, 0, false, false), Batch::Single { at: 0 });
    let record = suite_result_record("recovery", true, "t0", "t1", "/w/recovery");
    assert_eq!(record.get_text("log"), Some("/w/recovery/run.log"));
    let manifest = suite_manifest("PASS", "t0", &Some("t1".to_string()), "r", &modes, "/w", "/w/r");
    assert_eq!(manifest.get_text("finishedAt"), Some("t1"));
    assert_eq!(check_disk(Some(10), 20), CheckStatus::Failed);
    assert_eq!(check_disk(Some(20), 20), CheckStatus::Passed);
}

#[test]
fn history_names_the_events_that_are_missing() {
    let log = |event: &str| {
        object(vec![
            ("pipelineId", text("p")),
            ("eventType", text(event)),
        ])
    };
    let logs = vec![log("egress.failed")];
    assert!(verify_live_history_contract(&logs, &texts(&["egress.failed"])).is_ok());
    assert_eq!(
        verify_live_history_contract(&logs, &texts(&["egress.failed", "stage.started"]))
            .unwrap_err(),
        "live history contract missing lifecycle events: stage.started"
    );
    assert_eq!(
        verify_live_history_contract(&Vec::new(), &Vec::new()).unwrap_err(),
        "live history contract found no pipeline-scoped logs"
    );
}

#[test]
fn faults_are_watched() {
    let mut watch = TranscoderWatch::new();
    watch.observe(2, Some(1), 0);
    watch.observe(1, None, 10);
    assert_eq!((watch.peak_children, watch.peak_buffers), (2, 1));
    assert!(watch.spawned && watch.saw_output_bytes);
    assert!(is_recording_file("fault-rec.ts", "rec"));
    assert!(!is_recording_file(".ts", ""));
    let ingests = list(vec![object(vec![
        ("id", text("i1")),
        ("streamKey", text("k")),
    ])]);
    assert_eq!(find_ingest_id(&ingests, "k"), Some("i1".to_string()));
    assert_eq!(find_ingest_id(&ingests, "x"), None);
    let mut loss = SinkLossWatch::new();
    let quiet = object(vec![("status", text("running"))]);
    assert!(!loss.observe(&Some(quiet), &None, "p", "o"));
    let retrying = object(vec![
        ("status", text("retrying")),
        ("lastError", text("refused")),
        ("retryAttempts", number(2)),
    ]);
    assert!(loss.observe(&Some(retrying), &None, "p", "o"));
    assert_eq!(loss.retry_attempts, Some(2));
    assert!(SinkLossWatch::new().observe(&None, &None, "p", "o"));
}
