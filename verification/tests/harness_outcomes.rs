use restream::harness::graph::BurstReport;
use restream::harness::judge::protocol_trial;
use restream::harness::outcomes::{
    api_smoke_record, audio_route_fields, bframe_record, burst_record, config_record,
    correctness_record, delivery_record, egress_record, file_run_record, launch_fields,
    lifecycle_fields, load_fields, lost_audio_fields, lost_stream_fields, mixed_record,
    passthrough_record, preflight_record, protocol_record, ramp_family_record, ramp_record,
    ramp_snapshot_record, refused_publish_record, refused_read_record, ring_fields, sharing_fields,
    stream_fields, transcode_record, trial_record, upload_probe_record, upload_request_record, Load,
    ProbesFound, RampOutcome,
};
use restream::harness::probe::normalized_streams;
use restream::harness::ramp::{selected_ramp_configs, Protocol};
use restream::harness::setup::{run_paths, RunPathEnv, RunPaths};
use restream::harness::sink::GeneralizedSinkMetrics;
use restream::harness::suite::PreflightFindings;
use restream::harness::sweep::StreamWatch;
use restream::harness::verdicts::{AudioWatch, RingReading};
use restream::harness::waits::{file_ingest_message, playlist_message, preview_message};
use restream::json::Json;

fn text(value: &str) -> Json {
    Json::Text(value.to_string())
}

fn object(fields: Vec<(&str, Json)>) -> Json {
    Json::Object(
        fields
            .into_iter()
            .map(|(name, value)| (name.to_string(), value))
            .collect(),
    )
}

fn received() -> GeneralizedSinkMetrics {
    let mut m = GeneralizedSinkMetrics::new();
    for at in 0..30 {
        m.receive_video(&[0x17, 1], at);
    }
    m.receive_audio(&[0xAF], 3);
    m
}

fn probe(codec: &str) -> Json {
    let video = object(vec![
        ("codec_type", text("video")),
        ("codec_name", text(codec)),
        ("width", Json::Unsigned(1920)),
        ("height", Json::Unsigned(1080)),
    ]);
    let audio = object(vec![
        ("codec_type", text("audio")),
        ("codec_name", text("aac")),
        ("sample_rate", text("48000")),
        ("channels", Json::Unsigned(2)),
    ]);
    object(vec![("streams", Json::List(vec![video, audio]))])
}

fn paths() -> RunPaths {
    let env = RunPathEnv {
        scale_log: None,
        rss_summary: None,
        summary_log: None,
        restream_log: None,
        mediamtx_log: None,
        mediamtx_config: None,
        database: None,
        assertion_log: None,
    };
    run_paths(&env, "w", "mixed-", "mixed.db")
}

#[test]
fn sink_is_summed_up() {
    let m = received();
    let record = m.summary();
    assert_eq!(record.get_u64("videoCount"), Some(30));
    assert_eq!(record.get_u64("keyframeCount"), Some(30));
    assert_eq!(record.get_u64("bytes"), Some(61));
    assert_eq!(record.get_bool("dtsMonotone"), Some(true));
    let record = delivery_record(&m, 30);
    assert_eq!(record.get_bool("passed"), Some(true));
    assert_eq!(record.copy_field("sink").get_u64("audioCount"), Some(1));
    assert_eq!(delivery_record(&m, 31).get_bool("passed"), Some(false));
    let record = transcode_record(&m);
    assert_eq!(record.get_bool("passed"), Some(true));
    assert_eq!(record.get_text("videoCodec"), Some("h264"));
    let record = transcode_record(&GeneralizedSinkMetrics::new());
    assert_eq!(record.get_bool("passed"), Some(false));
    assert!(record.copy_field("videoCodec") == Json::Null);
}

#[test]
fn egress_passes_where_all_three_ways_do() {
    let m = received();
    let (record, passed) = egress_record(&m, "p2", true, &Ok(2), "media/a.ts");
    assert!(passed);
    assert_eq!(record.copy_field("recording").get_u64("streamCount"), Some(2));
    assert_eq!(record.copy_field("recording").get_text("file"), Some("media/a.ts"));
    assert_eq!(record.copy_field("srtEgress").get_text("srtSinkPipelineId"), Some("p2"));
    let failed = Err("ffprobe timed out".to_string());
    let (record, passed) = egress_record(&m, "p2", true, &failed, "");
    assert!(!passed);
    assert_eq!(record.get_bool("passed"), Some(false));
    assert_eq!(record.copy_field("recording").get_text("error"), Some("ffprobe timed out"));
    assert_eq!(record.copy_field("rtmpEgress").get_bool("passed"), Some(true));
}

#[test]
fn bframes_are_told_with_what_is_wrong() {
    let m = received();
    let (record, error) = bframe_record(30, 1, true, &m);
    assert!(error.is_none());
    assert_eq!(record.get_bool("passed"), Some(true));
    assert!(record.copy_field("error") == Json::Null);
    let (record, error) = bframe_record(29, 1, true, &m);
    assert_eq!(error.as_deref(), Some("expected at least 30 video packets, got 29"));
    assert_eq!(record.get_text("error"), error.as_deref());
    let (record, _) = bframe_record(30, 0, true, &m);
    assert_eq!(
        record.get_text("error"),
        Some("RTMP egress did not expose any packets with PTS > DTS")
    );
    let (record, _) = bframe_record(30, 1, false, &m);
    assert_eq!(record.get_text("error"), Some("RTMP egress DTS values are not monotone"));
}

#[test]
fn passthrough_is_told_with_its_streams() {
    let (record, passed) = passthrough_record(probe("hevc"));
    assert!(passed);
    assert_eq!(record.get_text("videoCodec"), Some("hevc"));
    let streams = record.get_list("streams").expect("streams");
    assert_eq!(streams.len(), 2);
    assert_eq!(streams[0].get_text("sampleRate"), Some("48000"));
    assert!(record.copy_field("error") == Json::Null);
    let (record, passed) = passthrough_record(probe("h264"));
    assert!(!passed);
    assert_eq!(record.get_text("videoCodec"), Some("NOT_hevc"));
    assert_eq!(
        record.get_text("error"),
        Some("SRT output video codec is not HEVC — passthrough failed")
    );
    let (record, passed) = passthrough_record(Json::Null);
    assert!(!passed);
    assert_eq!(
        record.get_text("mediaError"),
        Some("HEVC SRT passthrough: ffprobe output has no streams")
    );
    assert!(record.get_list("streams").is_none());
}

#[test]
fn protocols_are_told_with_what_was_read() {
    let trial = protocol_trial(Protocol::Rtmp, 1935, 10080);
    let streams = normalized_streams(&probe("h264")).expect("streams");
    let record = protocol_record(Protocol::Rtmp, &trial, Json::Null, probe("h264"), &streams);
    assert_eq!(record.get_text("protocol"), Some("rtmp"));
    assert_eq!(record.get_text("readUrl"), Some(trial.read_url.as_str()));
    assert_eq!(record.get_list("normalizedStreams").map(|s| s.len()), Some(2));
    let rtmp = trial_record("a.ts", &trial, Json::Null, probe("h264"), &streams);
    assert_eq!(rtmp.get_text("fixture"), Some("a.ts"));
    let both = correctness_record(rtmp, Json::Null);
    assert_eq!(both.get_bool("passed"), Some(true));
    assert_eq!(both.copy_field("rtmp").get_text("fixture"), Some("a.ts"));
}

#[test]
fn small_records() {
    let record = api_smoke_record("p1", "o1", 12);
    assert_eq!(record.get_text("mode"), Some("api-smoke"));
    assert_eq!(record.get_bool("dbPersistence"), Some(true));
    assert_eq!(record.copy_field("historyContract").get_u64("logCount"), Some(12));
    assert_eq!(refused_publish_record("l").get_text("label"), Some("l"));
    assert_eq!(refused_read_record("l", "no").get_text("error"), Some("no"));
    let record = upload_request_record("/upload?file=a", "a", "video/mp2t", 9);
    assert_eq!(record.get_u64("bytes"), Some(9));
    assert_eq!(record.get_text("contentType"), Some("video/mp2t"));
    let record = upload_probe_record(true, false, true, true, None);
    assert_eq!(record.get_bool("contentTypesCorrect"), Some(false));
    assert!(record.copy_field("outputStatus") == Json::Null);
    let record = burst_record(BurstReport {
        readers: 3,
        bursting: 2,
    });
    assert_eq!(record.get_u64("burstOk"), Some(2));
}

#[test]
fn ramps_are_told_with_spot_checks() {
    let baseline = ramp_snapshot_record(0, "baseline", "1.5", 100, 2, 30);
    assert_eq!(baseline.get_u64("totalRssKb"), Some(130));
    assert_eq!(baseline.get_text("cpuPct"), Some("1.5"));
    let config = selected_ramp_configs(&None)[0];
    let outcome = RampOutcome {
        pipeline: "p1".to_string(),
        outputs: 10,
        baseline,
        gain_kb: 50,
        per_output_kb: 5,
        transcoders: 1,
        transcoder_kb: 9,
        first: Some("1x1".to_string()),
        last: None,
    };
    let record = ramp_record(config, outcome);
    assert_eq!(record.get_u64("perOutputKb"), Some(5));
    let spots = record.copy_field("spotChecks");
    assert_eq!(spots.copy_field("first").get_text("got"), Some("1x1"));
    assert_eq!(spots.copy_field("first").get_text("expected"), Some(config.expected()));
    assert!(spots.copy_field("last").copy_field("got") == Json::Null);
    let family = ramp_family_record(vec![record], &paths());
    assert_eq!(family.get_text("mode"), Some("ramp-family"));
    assert_eq!(family.get_list("configs").map(|c| c.len()), Some(1));
    assert_eq!(
        family.copy_field("artifacts").get_text("summary"),
        Some(paths().summary_log.as_str())
    );
}

const LOAD: Load = Load {
    gain_kb: 40,
    per_output_kb: 5,
    transcoders: 2,
    transcoder_kb: 9,
};

#[test]
fn mixed_runs_are_told_with_their_probes() {
    let found = ProbesFound {
        sink: Some((received().summary(), true)),
        upload: None,
        bursts: Some((Json::Null, false)),
    };
    let record = config_record("h264-srt-multi", "p1", 2, LOAD, true, found);
    assert_eq!(record.get_u64("totalOutputs"), Some(8));
    assert_eq!(record.get_u64("audioTracks"), Some(2));
    assert_eq!(record.get_text("srt720pEncoding"), Some("720p+atrack:0,1"));
    assert_eq!(record.get_bool("sinkProbePassed"), Some(true));
    assert_eq!(record.copy_field("sinkProbe").get_u64("videoCount"), Some(30));
    assert_eq!(record.get_bool("burstGraphPassed"), Some(false));
    assert!(record.copy_field("hlsPutProbePassed") == Json::Null);
    let run = mixed_record("mixed-anchor", record, &paths());
    assert_eq!(run.get_text("mode"), Some("mixed-anchor"));
    assert_eq!(
        run.copy_field("artifacts").get_text("rssSummary"),
        Some(paths().rss_summary.as_str())
    );
    let record = file_run_record("file-h264", 8, 100, 130);
    assert_eq!(record.get_u64("rssGrowthKb"), Some(30));
    assert_eq!(file_run_record("file-h264", 8, 100, 90).get_u64("rssGrowthKb"), Some(0));
}

fn told(fields: Vec<(String, Json)>) -> Json {
    Json::Object(fields)
}

#[test]
fn checks_of_mixed_runs_tell_what_they_saw() {
    let record = told(launch_fields(0, &None));
    assert_eq!(record.get_u64("external_transcoder_launches"), Some(0));
    assert!(record.copy_field("message") == Json::Null);
    let record = told(launch_fields(2, &Some("m".to_string())));
    assert_eq!(record.get_text("message"), Some("m"));
    let record = told(load_fields(LOAD, Some(2)));
    assert_eq!(record.get_u64("ext_ffmpeg_rss_kb"), Some(9));
    assert_eq!(record.get_u64("audio_tracks"), Some(2));
    assert!(told(load_fields(LOAD, None)).copy_field("audio_tracks") == Json::Null);
    let ring = RingReading {
        capacity: 4096,
        five_seconds: true,
        depth: "5.5".to_string(),
        overflows: 1,
    };
    let record = told(ring_fields(&ring, "5.5"));
    assert!(record.copy_field("bufferDepthSecs") == Json::Real("5.5".to_string()));
    assert_eq!(record.get_u64("overflows"), Some(1));
    let record = told(sharing_fields(3, 1, Some(("m".to_string(), Json::Null))));
    assert_eq!(record.get_u64("bound"), Some(2));
    assert_eq!(record.get_text("message"), Some("m"));
    assert_eq!(sharing_fields(1, 1, None).len(), 2);
    let record = told(stream_fields("l", "1x1", "1x1", "u"));
    assert_eq!(record.get_text("url"), Some("u"));
    let watch = StreamWatch {
        last_observed: Some("2x2".to_string()),
        last_error: None,
    };
    let record = told(lost_stream_fields("m", "l", "1x1", "u", &watch));
    assert_eq!(record.get_text("got"), Some("2x2"));
    assert_eq!(record.get_text("ffprobe_stderr"), Some(""));
    let record = told(audio_route_fields("l", "1x1", 2, "u"));
    assert_eq!(record.get_u64("audio_tracks"), Some(2));
    let record = told(lost_audio_fields("m", "l", "1x1", 2, "u", &AudioWatch::new()));
    assert!(record.copy_field("audio_tracks") == Json::Null);
    assert_eq!(record.get_u64("expected_audio_tracks"), Some(2));
    let record = told(lifecycle_fields(4, &None));
    assert_eq!(record.get_u64("stopped"), Some(4));
    let record = told(lifecycle_fields(4, &Some("late".to_string())));
    assert_eq!(record.get_bool("stopped"), Some(false));
    assert_eq!(record.get_u64("requested"), Some(4));
}

#[test]
fn preflight_tells_every_check() {
    let mut found = PreflightFindings {
        binary_ok: true,
        missing_tools: vec![],
        free_mb: Some(4096),
        min_free_mb: 2048,
        harness_is_bench: true,
        restream_is_bench: true,
    };
    let record = preflight_record(&found, "h", "r");
    assert_eq!(record.get_text("status"), Some("ok"));
    let checks = record.get_list("checks").expect("checks");
    assert_eq!(checks.len(), 4);
    assert!(checks.iter().all(|c| c.get_text("status") == Some("ok")));
    assert!(checks[1].copy_field("missing") == Json::List(vec![]));
    found.free_mb = None;
    let record = preflight_record(&found, "h", "r");
    assert_eq!(record.get_text("status"), Some("ok"));
    let checks = record.get_list("checks").expect("checks");
    assert_eq!(checks[2].get_text("status"), Some("skip"));
    assert_eq!(checks[2].get_text("hint"), Some("could not stat artifact directory"));
    found.free_mb = Some(1);
    found.binary_ok = false;
    found.restream_is_bench = false;
    found.missing_tools.push("curl".to_string());
    let record = preflight_record(&found, "h", "r");
    assert_eq!(record.get_text("status"), Some("fail"));
    let checks = record.get_list("checks").expect("checks");
    assert!(checks.iter().all(|c| c.get_text("status") == Some("fail")));
    assert!(checks[0].get_text("hint").is_some());
    assert_eq!(checks[2].get_u64("freeMb"), Some(1));
}

#[test]
fn waits_that_failed_are_told() {
    assert_eq!(
        preview_message("p", true, "null"),
        "HLS preview state for pipeline p did not reach active=true; preview=null"
    );
    assert_eq!(
        file_ingest_message("p", false, "{}"),
        "file ingest state for pipeline p did not reach running=false; ingest={}"
    );
    assert_eq!(
        playlist_message("p", 15, "404 Not Found", "x"),
        "HLS playlist for pipeline p did not become ready within 15s; last_status=404 Not Found body=x"
    );
}
