use restream::harness::crypto::HarnessSrtCrypto;
use restream::harness::egress::{plan_egress, plan_hevc_srt};
use restream::harness::faults::plan_rtmp_sink_loss;
use restream::harness::mixed::{
    check_group_size, parse_only_checks, parse_resume_from, plan_mixed, plan_mixed_file,
    MixedResume, MixedSetup, MixedStep,
};
use restream::harness::policy::{
    plan_srt_policy, refused_publish_verdict, refused_read_verdict, setting_json, PolicySetting,
    PolicyStep,
};
use restream::harness::ramp::{
    check_ramp, database_files, plan_ramp, plan_spot_checks, publisher_args, ramp_publisher,
    ramp_result, ramp_snapshot_line, ramp_summary_line, read_url, selected_ramp_configs,
    target_config, PublishTrackSelection,
};
use restream::harness::recovery::{plan_retry_gap, ScenarioPorts};
use restream::harness::scenario::Step;
use restream::harness::setup::{crypto_variant_paths, env_count, env_u16, srt_listener_vars};
use restream::harness::sweep::{
    backend_name, bitrate_complaint, bitrate_stream_key, bitrate_texts, branch_shape_label,
    case_failure, parse_sweep_configs, parse_usize_list, plan_bitrate_case, plan_branch_matrix,
    plan_egress_growth, plan_ingest_growth, plan_resource_sweep, scenario_enabled, sweep_publisher,
    BitrateUnit, ResourceSweepLifecycle, StreamWatch, SweepConfig, SweepOutputKind, TargetPorts,
};

const TARGETS: TargetPorts = TargetPorts { rtmp: 1936, srt: 8891 };

fn some(s: &str) -> Option<String> {
    Some(s.to_string())
}

fn setup(only: Option<&str>, resume: Option<&str>) -> MixedSetup {
    MixedSetup {
        ingest_rtmp: 1935,
        ingest_srt: 10080,
        targets: TARGETS,
        target_hls: 8890,
        n: 2,
        skip_load: false,
        only_checks: parse_only_checks(&only.map(|s| s.to_string())),
        resume_from: parse_resume_from(&resume.map(|s| s.to_string())),
    }
}

fn outputs(steps: &[MixedStep]) -> usize {
    steps
        .iter()
        .filter(|s| matches!(s, MixedStep::AddOutput { .. }))
        .count()
}

fn probes(steps: &[MixedStep]) -> Vec<String> {
    steps
        .iter()
        .filter_map(|s| match s {
            MixedStep::Probe { id, .. } => Some(id.clone()),
            _ => None,
        })
        .collect()
}

#[test]
fn anchor_run_makes_every_check() {
    let plan = plan_mixed(&setup(None, None), SweepConfig::H264Srt);
    assert_eq!(outputs(&plan.steps), 9);
    assert_eq!(
        probes(&plan.steps),
        vec![
            "MS-ffprobe-rtmp-src",
            "MS-ffprobe-rtmp-720p",
            "MS-ffprobe-srt-src",
            "MS-ffprobe-srt-720p",
            "MS-hls-mtx"
        ]
    );
    assert!(matches!(
        plan.steps.last(),
        Some(MixedStep::AwaitStopped {
            secs: 60,
            reported: true
        })
    ));
    assert!(plan.steps.iter().any(|s| matches!(
        s,
        MixedStep::AddOutput { name, url, encoding }
            if name == "srt-720p-2"
                && url == "srt://127.0.0.1:8891?streamid=publish:live/h264-srt-srt-720p-2"
                && encoding == "720p"
    )));
}

#[test]
fn only_selected_checks_are_made() {
    let plan = plan_mixed(&setup(Some("sink_probe"), None), SweepConfig::H264Srt);
    assert!(probes(&plan.steps).is_empty());
    assert!(plan
        .steps
        .iter()
        .any(|s| matches!(s, MixedStep::ProbeSink { .. })));
    assert!(matches!(
        plan.steps.last(),
        Some(MixedStep::AwaitStopped {
            reported: false,
            ..
        })
    ));
}

#[test]
fn resumed_run_passes_over_what_came_before() {
    let plan = plan_mixed(
        &setup(None, Some("MS-ffprobe-srt-src")),
        SweepConfig::H264Srt,
    );
    assert_eq!(
        probes(&plan.steps),
        vec!["MS-ffprobe-srt-src", "MS-ffprobe-srt-720p", "MS-hls-mtx"]
    );
    assert!(!plan
        .steps
        .iter()
        .any(|s| matches!(s, MixedStep::CheckSmoke { .. })));
    assert_eq!(outputs(&plan.steps), 9);
}

#[test]
fn streams_with_two_tracks_are_heard_on_both() {
    let plan = plan_mixed(&setup(None, None), SweepConfig::H265SrtMulti);
    assert_eq!(outputs(&plan.steps), 8);
    let tracks: Vec<usize> = plan
        .steps
        .iter()
        .filter_map(|s| match s {
            MixedStep::ProbeAudio { tracks, .. } => Some(*tracks),
            _ => None,
        })
        .collect();
    assert_eq!(tracks, vec![1, 2]);
    assert!(plan.steps.iter().any(|s| matches!(
        s,
        MixedStep::CheckRing { id } if id == "MS-adaptive-ring-h265-srt-multi"
    )));
    assert!(plan.steps.iter().any(|s| matches!(
        s,
        MixedStep::Publish { codec: "h265", all_streams: true, log_name, .. }
            if log_name == "h265-srt-multi-publisher.log"
    )));
    assert!(plan.steps.iter().any(|s| matches!(
        s,
        MixedStep::AddOutput { encoding, .. } if encoding == "720p+atrack:0,1"
    )));
}

#[test]
fn bridge_and_rtmp_runs_have_their_own_checks() {
    let plan = plan_mixed(&setup(None, None), SweepConfig::H265Srt);
    assert!(plan
        .steps
        .iter()
        .any(|s| matches!(s, MixedStep::CheckSharing { .. })));
    let plan = plan_mixed(&setup(None, None), SweepConfig::H264Rtmp);
    assert!(plan.steps.iter().any(|s| matches!(
        s,
        MixedStep::Publish { url, format: "flv", .. }
            if url == "rtmp://127.0.0.1:1935/live/sk-h264-rtmp"
    )));
    assert!(matches!(plan.steps.last(), Some(MixedStep::Pause { secs: 8 })));
}

#[test]
fn file_run_adds_two_groups() {
    let mut s = setup(None, None);
    s.skip_load = true;
    let plan = plan_mixed_file(&s);
    assert_eq!(outputs(&plan.steps), 4);
    assert!(!plan
        .steps
        .iter()
        .any(|s| matches!(s, MixedStep::Snapshot { .. })));
}

#[test]
fn checks_and_targets_are_read() {
    assert_eq!(parse_only_checks(&some(" ")), None);
    assert_eq!(
        parse_only_checks(&some("a_b, ,c")),
        Some(vec!["a-b".to_string(), "c".to_string()])
    );
    assert_eq!(parse_resume_from(&some("  ")), None);
    assert!(check_group_size(0).is_err());
    let mut resume = MixedResume::new(some("x"));
    assert!(!resume.allows("a"));
    assert!(resume.allows("x"));
    assert!(resume.allows("a"));
}

#[test]
fn policy_is_tried_with_right_wrong_and_no_secrets() {
    let plan = plan_srt_policy(10080);
    let count = |f: &dyn Fn(&PolicyStep) -> bool| plan.iter().filter(|s| f(s)).count();
    assert_eq!(count(&|s| matches!(s, PolicyStep::CreatePipeline { .. })), 5);
    assert_eq!(count(&|s| matches!(s, PolicyStep::ReadRefused { .. })), 5);
    assert_eq!(count(&|s| matches!(s, PolicyStep::PublishRefused { .. })), 3);
    assert!(plan.iter().any(|s| matches!(
        s,
        PolicyStep::ReadRefused { url, label, .. }
            if label == "pipelineEncrypted24 wrong passphrase read"
                && url.ends_with("&latency=100&passphrase=wrongpass123&pbkeylen=24")
    )));
    assert!(refused_publish_verdict("x", true).is_err());
    assert!(refused_read_verdict("x", &None).is_ok());
    assert_eq!(
        refused_read_verdict("x", &some("{}")).unwrap_err(),
        "x: read unexpectedly succeeded: {}"
    );
}

#[test]
fn scripts_stop_what_they_start() {
    let ports = ScenarioPorts {
        rtmp: 1935,
        srt: 10080,
        sink: 19350,
        upload: 8990,
    };
    for script in [
        plan_egress(ports),
        plan_hevc_srt(ports),
        plan_retry_gap(ports, 15),
        plan_rtmp_sink_loss(ports, 15),
    ] {
        let started = script
            .steps
            .iter()
            .filter(|s| matches!(s, Step::Publish { .. }))
            .count();
        let stopped = script
            .steps
            .iter()
            .filter(|s| matches!(s, Step::StopPublisher))
            .count();
        assert!(started > 0);
        assert_eq!(started, stopped);
    }
}

#[test]
fn ramps_are_selected_by_name() {
    let all = selected_ramp_configs(&None);
    assert_eq!(all.len(), 8);
    assert_eq!(all[0].name(), "rtmp-rtmp-src");
    assert_eq!(all[7].name(), "srt-srt-720p");
    let some_of_them = selected_ramp_configs(&some("srt-rtmp-720p  nothing"));
    assert_eq!(some_of_them.len(), 1);
    assert_eq!(some_of_them[0], all[5]);
    assert!(check_ramp(0, 1).is_err());
    assert_eq!(
        check_ramp(1, 0),
        Err("RAMP_FAMILY_CONFIGS selected no ramp-family configs")
    );
    assert_eq!(
        ramp_publisher(all[5], 1935, 10080),
        (
            "srt://127.0.0.1:10080?streamid=publish:live/sk-srt-rtmp-720p&latency=200000".to_string(),
            "mpegts"
        )
    );
}

#[test]
fn ramp_adds_outputs_and_measures_some() {
    let config = selected_ramp_configs(&None)[2];
    let plan = plan_ramp(TARGETS, config, 5, 2);
    let measured: Vec<bool> = plan.iter().map(|o| o.measured).collect();
    assert_eq!(measured, vec![true, true, false, true, false]);
    assert_eq!(plan[4].name, "out5");
    assert_eq!(
        plan[4].url,
        "srt://127.0.0.1:8891?streamid=publish:live/rtmp-srt-src-5"
    );
    assert_eq!(
        read_url(TARGETS, config, 5),
        "srt://127.0.0.1:8891?streamid=read:live/rtmp-srt-src-5&timeout=30000000"
    );
    assert_eq!(config.expected(), "1920x1080");
    assert_eq!(
        ramp_summary_line(config, 10, 2, 1, 7),
        "rtmp-srt-src,rss_delta_kb=10,per_output_kb=2,ffmpeg_n=1,ffmpeg_rss_kb=7\n"
    );
    assert_eq!(
        ramp_snapshot_line("c", 3, "out3", "1.5", 100, 1, 20),
        "c,3,\"out3\",1.5,100,1,20,120\n"
    );
}

#[test]
fn databases_and_targets_are_told_exactly() {
    assert_eq!(
        database_files("sqlite:/w/x.db?mode=rwc"),
        vec!["/w/x.db", "/w/x.db-shm", "/w/x.db-wal"]
    );
    assert_eq!(
        target_config(1936, 8891, None, 9997),
        "logLevel: warn\nrtmp: yes\nrtmpAddress: :1936\nrtmpEncryption: \"no\"\nrtsp: no\nsrt: yes\nsrtAddress: :8891\nhls: no\nwebrtc: no\napi: yes\napiAddress: :9997\nmetrics: no\npaths:\n  all:\n"
    );
    assert!(target_config(1, 2, Some(3), 4)
        .contains("\nhls: yes\nhlsAddress: :3\nhlsPartDuration: 200ms\nhlsSegmentDuration: 2s\n"));
    let args = publisher_args("f.ts", "u", "flv", PublishTrackSelection::PrimaryAv);
    assert_eq!(
        args[9..],
        ["-map", "0:v", "-map", "0:a:0", "-c", "copy", "-f", "flv", "u"]
    );
}

#[test]
fn sweeps_are_filtered_by_scenario() {
    assert_eq!(plan_resource_sweep(&None).len(), 16);
    assert_eq!(plan_branch_matrix(&None).len(), 5);
    let only = Some(vec!["ingest-only".to_string()]);
    assert_eq!(plan_resource_sweep(&only).len(), 5);
    assert!(plan_branch_matrix(&only).is_empty());
    assert!(scenario_enabled(&None, "x"));
    assert_eq!(
        plan_branch_matrix(&None)[3].scenario(),
        "egress-growth-transcode-dual-mixed"
    );
    assert_eq!(branch_shape_label("x"), "custom");
}

#[test]
fn growths_are_measured_where_asked() {
    let steps = plan_ingest_growth(&vec![1, 3], true);
    assert_eq!(steps.len(), 3);
    assert_eq!(steps[2].stream_key, "resource-growth-3-h265-srt");
    assert!(steps[1].measured.is_none());
    assert_eq!(
        steps[2].measured.as_ref().unwrap().ingest_types,
        "h264-rtmp,h264-srt,h265-srt"
    );
    let kinds = vec![SweepOutputKind::RtmpSource, SweepOutputKind::Srt720p];
    let steps = plan_egress_growth(
        TARGETS,
        "egress-growth-x",
        SweepConfig::H264SrtMulti,
        &kinds,
        &vec![2],
    );
    assert_eq!(steps.len(), 2);
    assert_eq!(steps[1].outputs[1].name, "egress-growth-x-srt-720p-2");
    assert_eq!(steps[1].outputs[1].encoding, "720p+atrack:0,1");
    let meta = steps[1].measured.as_ref().unwrap();
    assert_eq!((meta.outputs, meta.transcode), (4, "yes"));
    assert_eq!(meta.egress_mix, "rtmp-source,srt-720p");
}

#[test]
fn bitrate_cases_send_to_four_outputs_in_each_group() {
    let plan = plan_bitrate_case(TARGETS, SweepConfig::H264Srt, "1.5M", 2);
    assert_eq!(plan.len(), 8);
    assert_eq!(plan[5].output.name, "h264-srt-1_5m-rtmp-720p-2");
    assert_eq!(plan[5].expected, "1280x720");
    assert_eq!(
        plan[6].probe_url,
        "srt://127.0.0.1:8891?streamid=read:live/h264-srt-1_5m-srt-src-2&timeout=30000000"
    );
    assert_eq!(
        bitrate_stream_key(SweepConfig::H264Srt, "1.5M"),
        "bitrate-h264-srt-1_5m"
    );
    assert_eq!(case_failure("n", "a", "b"), "n: expected a, observed b");
}

#[test]
fn lists_of_the_environment_are_read() {
    assert_eq!(parse_usize_list("1, 0,x,5"), vec![1, 5]);
    assert_eq!(
        ResourceSweepLifecycle::from_env(&some("Cumulative")),
        Ok(ResourceSweepLifecycle::Cumulative)
    );
    assert_eq!(
        ResourceSweepLifecycle::from_env(&some("Forever")).unwrap_err(),
        "RESOURCE_SWEEP_LIFECYCLE must be isolated, continuous, or cumulative (got forever)"
    );
    assert_eq!(
        parse_sweep_configs("V", &some("h265-srt, h264-rtmp")),
        Ok(vec![SweepConfig::H265Srt, SweepConfig::H264Rtmp])
    );
    assert_eq!(
        parse_sweep_configs("V", &some("h266")).unwrap_err(),
        "unknown sweep config \"h266\""
    );
    assert_eq!(
        parse_sweep_configs("V", &some(" , ")).unwrap_err(),
        "V produced no configs"
    );
    let rates = bitrate_texts("1.5M,800k, 3");
    assert_eq!(rates[1].number, "800");
    assert_eq!(rates[1].unit, BitrateUnit::Kbps);
    assert_eq!(rates[2].unit, BitrateUnit::Bare);
    assert_eq!(bitrate_complaint(&rates[1]), "invalid Kbps bitrate \"800k\"");
    assert_eq!(backend_name(&some("TRUE")), "internal");
    assert_eq!(backend_name(&None), "external");
    assert_eq!(env_u16(&some("70000"), 8990), 8990);
    assert_eq!(env_count(&some("0"), 10), 1);
}

#[test]
fn publishers_are_encrypted_where_asked() {
    let crypto = HarnessSrtCrypto::encrypted(24);
    let p = sweep_publisher(1935, 10080, &crypto, SweepConfig::H264SrtMulti, "k");
    assert!(p.url.starts_with("srt://127.0.0.1:10080?streamid=publish:live/k&latency=200000&passphrase="));
    assert!(p.url.ends_with("&pbkeylen=24"));
    assert!(p.all_streams);
    let p = sweep_publisher(1935, 10080, &crypto, SweepConfig::H264Rtmp, "k");
    assert_eq!(p.url, "rtmp://127.0.0.1:1935/live/k");
    assert!(srt_listener_vars(&crypto).passphrase.is_some());
    assert!(srt_listener_vars(&HarnessSrtCrypto::plaintext()).pbkeylen.is_none());
    let paths = crypto_variant_paths("w", &vec![HarnessSrtCrypto::plaintext(), crypto]);
    assert_eq!(paths[0].database, "w/plaintext/branch-matrix.db");
    assert_ne!(paths[0].work_dir, paths[1].work_dir);
}

#[test]
fn streams_are_watched_until_they_are_as_expected() {
    let mut watch = StreamWatch::new();
    assert_eq!(watch.observed(), "none");
    assert!(!watch.observe(&Err("refused".to_string()), "1280x720"));
    assert_eq!(watch.observed(), "refused");
    assert!(!watch.observe(&Ok("640x360".to_string()), "1280x720"));
    assert!(!watch.observe(&Ok(String::new()), "1280x720"));
    assert_eq!(watch.observed(), "640x360");
    assert_eq!(ramp_result(&watch, false, "1280x720"), some("640x360"));
    assert!(watch.observe(&Ok("1280x720".to_string()), "1280x720"));
    assert_eq!(ramp_result(&watch, true, "1280x720"), some("1280x720"));
}

#[test]
fn plans_say_how_patient_they_are() {
    let plan = plan_mixed(&setup(None, None), SweepConfig::H264Srt);
    assert!(plan.steps.iter().any(|s| matches!(
        s,
        MixedStep::ProbeSink {
            frames: 30,
            secs: 20,
            poll_ms: 200,
            settle_secs: 1,
            ..
        }
    )));
    let tries = plan.steps.iter().find_map(|s| match s {
        MixedStep::Probe { tries, .. } => Some(*tries),
        _ => None,
    });
    assert_eq!(tries.map(|t| (t.attempts, t.pause_secs)), Some((30, 2)));
    let file = plan_mixed_file(&setup(None, None));
    assert!(file.steps.iter().any(|s| matches!(
        s,
        MixedStep::StopEach {
            pause_after: 4,
            pause_ms: 100,
        }
    )));
    let config = selected_ramp_configs(&None)[0];
    let (first, last) = plan_spot_checks(TARGETS, config, 7);
    assert_eq!((first.label.as_str(), last.label.as_str()), ("out1", "out7"));
    assert_eq!(last.url, read_url(TARGETS, config, 7));
    assert_eq!((last.tries.attempts, last.tries.pause_secs), (10, 2));
    assert!(plan_srt_policy(10080).iter().any(|s| matches!(
        s,
        PolicyStep::PublishRefused {
            after_secs: 4,
            live_secs: 1,
            off_secs: 5,
            ..
        }
    )));
    let open = setting_json(&PolicySetting::Plaintext, true);
    assert_eq!(open.get_u64("pbkeylen"), Some(16));
    let open = setting_json(&PolicySetting::Plaintext, false);
    assert_eq!(open.get_u64("pbkeylen"), None);
    assert_eq!(open.get_text("mode"), Some("plaintext"));
}
