use std::collections::HashMap;

use restream::harness::measure::{
    advance_clocks, bitrate_sweep_csv, branch_deltas, branch_matrix_markdown, csv_escape,
    ordered_rows, overflow_count, read_accounting, resource_sweep_csv, summarize_bitrate_case,
    summarize_resource_samples, ticks_between, unattributed, BitrateRow, BitrateSample, BranchRow,
    CpuShares, DeltaCells, ProcessClock, ResourceRow, ResourceSample,
};
use restream::harness::proc::{
    cpu_share, ffmpeg_children_stats, ffmpeg_pipe1_stats, memory_gain, printed_kb,
    printed_transcoders, process_cpu_pct, process_rss_kb, smaps_rollup,
    stat_ticks, status_kb, unavailable_message, FfmpegStats, FoundProcess,
};
use restream::harness::reports::{
    bitrate_sample as sample_of_case, bitrate_sweep_case_json, bitrate_sweep_sample_json,
    bitrate_sweep_summary, branch_matrix_summary, resource_aggregate_json, resource_sample,
    resource_sample_json, resource_sweep_summary, SampleShares,
};
use restream::harness::setup::sweep_paths;
use restream::harness::sweep::{baseline_meta, ResourceSweepLifecycle, SweepConfig};
use restream::json::Json;

fn object(fields: Vec<(&str, Json)>) -> Json {
    Json::Object(
        fields
            .into_iter()
            .map(|(name, value)| (name.to_string(), value))
            .collect(),
    )
}

fn number(n: u64) -> Json {
    Json::Unsigned(n)
}

#[test]
fn ticks_are_read_from_the_fourteenth_and_fifteenth_field() {
    let stat = "7 (restream) S 1 2 3 4 5 6 7 8 9 10 250 75 0";
    assert_eq!(stat_ticks(stat), Ok(325));
    assert_eq!(stat_ticks("7 (x) S"), Err("proc stat missing utime"));
    assert_eq!(
        stat_ticks("7 (x) S 1 2 3 4 5 6 7 8 9 10 250 x"),
        Err("proc stat missing stime")
    );
}

#[test]
fn kilobytes_are_read_from_a_status() {
    let status = "Name:\trestream\nPPid:\t12\nVmRSS:\t  2048 kB\n";
    assert_eq!(status_kb(status, 7, "VmRSS"), Ok(2048));
    assert_eq!(
        status_kb(status, 7, "VmSwap"),
        Err("VmSwap missing in /proc/7/status".to_string())
    );
    assert_eq!(
        status_kb(status, 7, "Name"),
        Err("failed to parse Name".to_string())
    );
}

#[test]
fn unreadable_process_is_told_with_its_log() {
    assert_eq!(
        unavailable_message(7, "VmRSS", "gone", &vec!["a".to_string(), "b".to_string()]),
        "restream pid 7 unavailable while reading VmRSS: gone\nrestream log tail:\na\nb"
    );
    assert_eq!(
        unavailable_message(7, "VmRSS", "gone", &Vec::new()),
        "restream pid 7 unavailable while reading VmRSS: gone"
    );
}

#[test]
fn rollup_takes_zero_for_what_is_missing() {
    let r = smaps_rollup("Pss:  30 kB\nAnonymous: 12 kB\nSwap: x kB\n");
    assert_eq!((r.pss_kb, r.anonymous_kb, r.swap_kb), (30, 12, 0));
    assert_eq!(r.private_dirty_kb, 0);
}

#[test]
fn children_that_run_ffmpeg_are_counted() {
    let process = |pid, parent: &str, command_line: &str| {
        let status = format!("PPid:\t{parent}\nVmRSS:\t100 kB\n");
        FoundProcess::new(
            pid,
            Some(status.clone()),
            command_line.as_bytes(),
            Some(status),
        )
    };
    let all = vec![
        process(10, "7", "ffmpeg\0-i"),
        process(11, "8", "ffmpeg"),
        process(12, "7", "bash"),
        FoundProcess {
            pid: 13,
            status: None,
            command_line: "ffmpeg".to_string(),
            status_again: None,
        },
    ];
    let stats = ffmpeg_children_stats(&all, 7);
    assert_eq!((stats.count, stats.rss_kb), (1, 100));
    assert_eq!(stats.pids, vec![10]);
}

#[test]
fn transcoders_are_found_in_a_listing() {
    let listing = "USER PID %CPU %MEM VSZ RSS TTY\nu 1 0 0 9 700 ? ffmpeg -i x pipe:1\nu 2 0 0 9 5 ? ffmpeg -i y out.ts\n";
    let stats = ffmpeg_pipe1_stats(listing);
    assert_eq!((stats.count, stats.rss_kb), (1, 700));
    assert_eq!(cpu_share(" \n"), "0");
    assert_eq!(cpu_share(" 12.5\n"), "12.5");
    assert_eq!(printed_kb(" 4096\n"), Some(4096));
    assert_eq!(printed_transcoders(listing.as_bytes()), Some(stats));
    let huge = "u 1 0 0 9 18446744073709551615 ? ffmpeg pipe:1\nu 2 0 0 9 1 ? ffmpeg pipe:1\n";
    assert_eq!(printed_transcoders(huge.as_bytes()), None);
    assert_eq!(process_cpu_pct(true, b" 12.5\n"), Some("12.5".to_string()));
    assert_eq!(process_cpu_pct(true, b"\n"), Some("0".to_string()));
    assert_eq!(process_cpu_pct(false, b"12.5"), None);
    assert_eq!(process_rss_kb(true, b" 4096\n"), Some(4096));
    assert_eq!(process_rss_kb(true, b"\xff4096"), None);
    assert_eq!(process_rss_kb(false, b"4096"), None);
    assert_eq!(memory_gain(100, 350, 100), (250, 2));
    assert_eq!(memory_gain(400, 350, 100), (0, 0));
}

#[test]
fn memory_is_accounted_for_in_kilobytes() {
    let ring = |bytes| {
        object(vec![(
            "payloadStats",
            object(vec![("payloadBytes", number(bytes))]),
        )])
    };
    let queue = |bytes| object(vec![("highWaterBytes", number(bytes))]);
    let telemetry = object(vec![(
        "memoryAccounting",
        object(vec![
            ("retainedPayloadBytes", number(4096)),
            ("sourceRings", Json::List(vec![ring(1000), ring(1100)])),
            (
                "avioQueues",
                object(vec![
                    ("totalLenBytes", number(2047)),
                    ("inputQueues", Json::List(vec![queue(1024)])),
                    ("egressQueues", Json::List(vec![queue(1024), queue(1)])),
                ]),
            ),
        ]),
    )]);
    let a = read_accounting(&telemetry);
    assert_eq!((a.retained_kb, a.source_ring_kb, a.transcoder_ring_kb), (4, 2, 0));
    assert_eq!((a.avio_len_kb, a.avio_hwm_kb), (1, 2));
    assert_eq!(unattributed(10, 4, 1), 5);
    assert_eq!(unattributed(3, 4, 1), 0);
    let pipeline = object(vec![(
        "sourceRing",
        object(vec![(
            "readers",
            Json::List(vec![
                object(vec![("overflowCount", number(2))]),
                object(vec![("overflowCount", number(3))]),
                object(vec![]),
            ]),
        )]),
    )]);
    assert_eq!(overflow_count(&pipeline), 5);
}

#[test]
fn clocks_go_on_and_new_processes_count_from_now() {
    let mut before = HashMap::new();
    before.insert(1, 100);
    before.insert(2, 50);
    let now = vec![
        ProcessClock {
            pid: 1,
            ticks: Some(130),
        },
        ProcessClock {
            pid: 3,
            ticks: Some(999),
        },
        ProcessClock { pid: 2, ticks: None },
    ];
    let (delta, clocks) = advance_clocks(&before, &now);
    assert_eq!(delta, 30);
    assert_eq!(clocks.len(), 2);
    assert_eq!(clocks.get(&3), Some(&999));
    assert_eq!(ticks_between(5, 3), 0);
}

fn sample(rss_kb: u64, stages: u64) -> ResourceSample {
    ResourceSample {
        rss_kb,
        ffmpeg_count: 2,
        ffmpeg_rss_kb: 0,
        retained_kb: 1,
        source_ring_kb: 0,
        transcoder_ring_kb: 0,
        tsmux_ring_kb: 0,
        avio_len_kb: 0,
        avio_hwm_kb: 0,
        anonymous_kb: 0,
        private_dirty_kb: 0,
        private_clean_kb: 6,
        shared_clean_kb: 0,
        shared_dirty_kb: 7,
        pss_kb: 0,
        swap_kb: 8,
        unattributed_kb: 0,
        active_transcoder_buffers: 0,
        ingests: 1,
        egresses: 0,
        stages,
        pipeline_count: 1,
    }
}

#[test]
fn samples_are_made_of_what_was_told() {
    let queue = |n: u64| object(vec![("highWaterBytes", number(n))]);
    let avio = object(vec![
        ("totalLenBytes", number(2_048)),
        ("inputQueues", Json::List(vec![queue(1_000)])),
        ("egressQueues", Json::List(vec![queue(24), queue(1_024)])),
    ]);
    let ring = object(vec![(
        "payloadStats",
        object(vec![("payloadBytes", number(10_240))]),
    )]);
    let telemetry = object(vec![
        (
            "memoryAccounting",
            object(vec![
                ("retainedPayloadBytes", number(5_120)),
                ("sourceRings", Json::List(vec![ring])),
                ("avioQueues", avio),
            ]),
        ),
        ("activeTranscoderBuffers", number(3)),
        ("egresses", Json::List(vec![Json::Null])),
    ]);
    let pipelines = object(vec![("p1", Json::Null), ("p2", Json::Null)]);
    let health = object(vec![("pipelines", pipelines)]);
    let children = FfmpegStats {
        count: 1,
        rss_kb: 50,
        pids: vec![9],
    };
    let rollup = smaps_rollup("Pss: 40 kB\nSwap: 2 kB\n");
    let s = resource_sample(100, &children, &rollup, &telemetry, &health);
    assert_eq!((s.rss_kb, s.ffmpeg_count, s.ffmpeg_rss_kb), (100, 1, 50));
    assert_eq!((s.pss_kb, s.swap_kb), (40, 2));
    assert_eq!((s.retained_kb, s.source_ring_kb), (5, 10));
    assert_eq!((s.avio_len_kb, s.avio_hwm_kb), (2, 2));
    assert_eq!(s.unattributed_kb, 93);
    assert_eq!((s.active_transcoder_buffers, s.egresses, s.stages), (3, 1, 0));
    assert_eq!(s.pipeline_count, 2);

    let cpu = SampleShares {
        restream: "1.25".to_string(),
        ffmpeg: "2.5".to_string(),
        total: "3.75".to_string(),
    };
    let record = resource_sample_json(&baseline_meta(), ResourceSweepLifecycle::Isolated, &cpu, &s);
    assert_eq!(record.get_text("scenario"), Some("baseline-empty"));
    assert_eq!(record.get_u64("unattributedKb"), Some(93));
    assert!(record.copy_field("totalCpuPct") == Json::Real("3.75".to_string()));

    let reader = object(vec![("overflowCount", number(4))]);
    let source = object(vec![("readers", Json::List(vec![reader]))]);
    let pipeline = object(vec![("sourceRing", source)]);
    let b = sample_of_case(15, 100, 110, &children, &telemetry, &pipeline);
    assert_eq!((b.restream_rss_kb, b.total_rss_kb), (100, 160));
    assert_eq!((b.elapsed_secs, b.overflow_count), (15, 4));
    let record = bitrate_sweep_sample_json(SweepConfig::H264Rtmp, "4M", "4", &cpu, &b);
    assert_eq!(record.get_text("config"), Some("h264-rtmp"));
    assert_eq!(record.get_u64("overflowCount"), Some(4));
}

#[test]
fn samples_add_up_to_sums_and_peaks() {
    let totals = summarize_resource_samples(&vec![sample(100, 3), sample(300, 1), sample(200, 2)]);
    assert_eq!((totals.sample_count, totals.rss_sum_kb), (3, 600));
    assert_eq!((totals.peaks.rss_kb, totals.peaks.stages), (300, 3));
    assert_eq!(summarize_resource_samples(&Vec::new()).peaks.rss_kb, 0);
}

fn bitrate_sample(elapsed_secs: u64, retained: u64) -> BitrateSample {
    BitrateSample {
        restream_rss_kb: 10,
        ffmpeg_count: 1,
        ffmpeg_rss_kb: 5,
        total_rss_kb: 15,
        retained_payload_kb: retained,
        source_ring_kb: 0,
        transcoder_ring_kb: 0,
        tsmux_ring_kb: 0,
        avio_len_kb: 0,
        avio_hwm_kb: 0,
        elapsed_secs,
        overflow_count: 0,
    }
}

#[test]
fn bitrate_cases_are_summarized() {
    let samples = vec![
        bitrate_sample(5, 40),
        bitrate_sample(10, 20),
        bitrate_sample(15, 50),
    ];
    let s = summarize_bitrate_case(2, 100, 160, Vec::new(), &samples).expect("a summary");
    assert_eq!((s.outputs_total, s.rss_delta_kb), (8, 60));
    assert_eq!((s.retained_min_kb, s.retained_final_kb, s.retained_growth_kb), (20, 50, 30));
    assert_eq!((s.elapsed_secs, s.peaks.retained_payload_kb), (15, 50));
    assert_eq!(
        summarize_bitrate_case(1, 0, 0, Vec::new(), &Vec::new()).unwrap_err(),
        "bitrate sweep produced no samples"
    );
}

#[test]
fn fields_with_commas_and_quotes_are_quoted() {
    assert_eq!(csv_escape("plain"), "plain");
    assert_eq!(csv_escape("a,b"), "\"a,b\"");
    assert_eq!(csv_escape("say \"x\""), "\"say \"\"x\"\"\"");
    assert_eq!(csv_escape("two\nlines"), "\"two\nlines\"");
}

fn shares() -> CpuShares {
    CpuShares {
        restream_avg: "1.00".to_string(),
        restream_peak: "2.00".to_string(),
        ffmpeg_avg: "3.00".to_string(),
        ffmpeg_peak: "4.00".to_string(),
        total_avg: "5.00".to_string(),
        total_peak: "6.00".to_string(),
    }
}

#[test]
fn resource_table_has_a_header_and_a_line_for_each_run() {
    let totals = summarize_resource_samples(&vec![sample(100, 3)]);
    let rows = vec![ResourceRow {
        meta: baseline_meta(),
        lifecycle: ResourceSweepLifecycle::Cumulative,
        sample_count: totals.sample_count,
        cpu: shares(),
        rss_avg_kb: "100.00".to_string(),
        peaks: totals.peaks,
    }];
    let record = resource_aggregate_json(&rows[0]);
    assert_eq!(record.get_text("lifecycle"), Some("cumulative"));
    assert_eq!(record.get_u64("rssPeakKb"), Some(100));
    assert!(record.copy_field("totalCpuPeakPct") == Json::Real("6.00".to_string()));
    let paths = sweep_paths("w", "resource-sweep", &None);
    let result = resource_sweep_summary(ResourceSweepLifecycle::Cumulative, &paths, &rows);
    assert!(result.copy_field("aggregates") == Json::List(vec![record]));
    let files = result.copy_field("artifacts");
    assert_eq!(files.get_text("summaryCsv"), Some(paths.summary_csv.as_str()));
    assert!(files.copy_field("summaryMarkdown") == Json::Null);
    let result = branch_matrix_summary(
        "internal",
        "plaintext",
        ResourceSweepLifecycle::Isolated,
        &paths,
        &rows,
    );
    assert_eq!(result.get_text("srtIngestTransport"), Some("plaintext"));
    assert_eq!(
        result.copy_field("artifacts").get_text("summaryMarkdown"),
        Some(paths.summary_md.as_str())
    );
    let csv = resource_sweep_csv(&rows);
    let lines: Vec<&str> = csv.lines().collect();
    assert_eq!(lines.len(), 2);
    assert_eq!(lines[0].split(',').count(), lines[1].split(',').count());
    assert!(lines[1].starts_with(
        "baseline-empty,empty,cumulative,0,0,none,none,none,1,1.00,2.00,3.00,4.00,5.00,6.00,100.00,100,"
    ));
}

#[test]
fn bitrate_table_has_a_header_and_a_line_for_each_case() {
    let summary =
        summarize_bitrate_case(1, 5, 9, vec!["x".to_string()], &vec![bitrate_sample(5, 7)])
            .expect("a summary");
    let row = BitrateRow {
        config: SweepConfig::H265SrtMulti,
        bitrate_label: "1.5M".to_string(),
        bitrate_mbps: "1.50".to_string(),
        bitrate_exact: "1.5".to_string(),
        cpu: shares(),
        retained_growth_per_min: "0.00".to_string(),
        summary,
    };
    let record = bitrate_sweep_case_json(&row);
    assert_eq!(record.get_text("ingestProto"), Some("srt"));
    assert!(record.copy_field("bitrateMbps") == Json::Real("1.5".to_string()));
    assert!(record.copy_field("multiAudio") == Json::Bool(true));
    assert!(record.copy_field("correctnessOk") == Json::Bool(false));
    assert!(
        record.copy_field("correctnessFailures")
            == Json::List(vec![Json::Text("x".to_string())])
    );
    let rows = vec![row];
    let result = bitrate_sweep_summary(&sweep_paths("w", "bitrate-sweep", &None), &rows);
    assert_eq!(result.get_text("mode"), Some("bitrate-sweep"));
    assert!(result.copy_field("cases") == Json::List(vec![record]));
    let csv = bitrate_sweep_csv(&rows);
    let lines: Vec<&str> = csv.lines().collect();
    assert_eq!(lines[0].split(',').count(), lines[1].split(',').count());
    assert!(lines[1].starts_with("h265-srt-multi,srt,h265,true,1.5M,1.50,1,4,5,9,4,10,1,5,15,"));
    assert!(lines[1].ends_with(",false"));
}

fn branch(scenario: &str, outputs: usize, rss_peak_kb: u64) -> BranchRow {
    BranchRow {
        scenario: scenario.to_string(),
        label: "10-per-group".to_string(),
        lifecycle: ResourceSweepLifecycle::Isolated,
        outputs,
        rss_peak_kb,
        ffmpeg_rss_peak_kb: 24,
        stages_peak: 2,
        restream_mb: "1.0".to_string(),
        ffmpeg_mb: "0.0".to_string(),
        combined_mb: "1.0".to_string(),
        cpu: "3.00".to_string(),
    }
}

#[test]
fn branches_are_reported_in_order_and_compared() {
    let rows = vec![
        branch("egress-growth-source-plus-transcode-dual-mixed", 60, 9000),
        branch("something-else", 1, 1),
        branch("egress-growth-transcode-dual-mixed", 40, 8000),
        branch("egress-growth-transcode-mixed", 20, 4000),
        branch("egress-growth-source-plus-transcode-mixed", 40, 3000),
    ];
    assert_eq!(ordered_rows(&rows), vec![3, 4, 2, 0, 1]);
    let (a, b, c) = branch_deltas(&rows).expect("a comparison");
    assert_eq!((a.outputs, a.combined_kb), (20, 0));
    assert_eq!((b.outputs, b.combined_kb), (20, 4000));
    assert_eq!((c.outputs, c.combined_kb), (20, 1000));
    assert!(branch_deltas(&rows[..4].to_vec()).is_none());

    let cells = |outputs| DeltaCells {
        outputs,
        combined_mb: "0.1".to_string(),
        cpu: "0.20".to_string(),
    };
    let text = branch_matrix_markdown(
        "external",
        "plaintext",
        &rows,
        &Some((cells(20), cells(20), cells(20))),
    );
    assert!(text.starts_with(
        "# Branch Matrix\n\n- Backend: `external`\n- SRT ingest transport: `plaintext`\n- Lifecycle: `isolated`\n- Fanout per group: `10-per-group`\n\n| Shape |"
    ));
    assert!(text.contains("| one transcode family (720p) | 20 | 1.0 | 0.0 | 1.0 | 3.00 | 2 |\n"));
    assert!(text.contains("| Add a second transcode family | 20 | 0.1 | 0.20 |\n"));
    let empty = branch_matrix_markdown("external", "plaintext", &Vec::new(), &None);
    assert!(!empty.contains("Lifecycle"));
}
