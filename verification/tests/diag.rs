use restream::diag::outputs::{
    check_active_outputs, count_outputs, EgressSnapshot, SrtQuality, TcpQuality,
};
use restream::diag::pipeline::{
    check_engine_status, check_gop_analysis, check_ingest_stream_info, check_ring_buffer_health,
    find_ingest, gop_intervals, AudioSnapshot, GopStatistics, IngestSnapshot, MediaSnapshot,
    ReaderSnapshot, RingSnapshot, VideoSnapshot,
};
use restream::diag::system::{
    check_network_bandwidth, check_srt_listener_socket, check_system_resources, DiskSnapshot,
    InterfaceSample, ListenerSnapshot, ResourceSnapshot,
};
use restream::diag::transport::check_publisher_transport;
use restream::diag::{
    check_description, check_name, done_event, first_step, percent_of, result_event,
    run_diagnostics, running_event, DiagResult, DiagStep, Reading, CHECK_COUNT,
};

fn reading(text: &str, floor: i64, ceil: i64) -> Reading {
    Reading {
        text: text.to_string(),
        floor,
        ceil,
    }
}

#[test]
fn run_that_nobody_hears_stops_at_once() {
    let mut step = first_step();
    step = run_diagnostics(step, false);
    assert_eq!(step, DiagStep::Stop);
    assert_eq!(run_diagnostics(step, true), DiagStep::Stop);
}

#[test]
fn run_that_is_heard_makes_every_check() {
    let mut step = first_step();
    let mut announced = Vec::new();
    while step != DiagStep::Done {
        if let DiagStep::Announce { index } = step {
            announced.push(check_name(index));
            assert!(!check_description(index).is_empty());
        }
        step = run_diagnostics(step, true);
    }
    assert_eq!(announced.len(), CHECK_COUNT as usize);
    assert_eq!(announced[0], "Engine Status");
    assert_eq!(announced[8], "SRT Listener Socket");
}

#[test]
fn events_are_framed() {
    assert_eq!(
        done_event(42),
        "event: done\ndata: {\"totalDurationMs\":42}\n\n"
    );
    let event = running_event(1, "Stream Info", "what comes in");
    assert!(event.starts_with("event: "));
    assert!(event.contains("\"name\":\"Stream Info\""));
    assert!(event.ends_with("\n\n"));
    let result = DiagResult::ok(0, "n", "d", "c", "out".to_string(), 5)
        .with_issues(vec!["an issue".to_string()]);
    assert!(result_event(&result).contains("\"an issue\""));
}

#[test]
fn shares_are_whole_percents() {
    assert_eq!(percent_of(1, 3), 33);
    assert_eq!(percent_of(5, 0), 0);
}

#[test]
fn pipeline_without_publisher_is_an_issue() {
    let result = check_engine_status(0, "p1", &vec![], &vec![], &vec![], 3);
    assert_eq!(
        result.issues,
        vec!["No active publisher is connected to this pipeline.".to_string()]
    );
    assert_ne!(result.exit_code, 0);
    assert_eq!(result.duration_ms, 3);
}

fn publisher(pipeline_id: &str, protocol: &str) -> IngestSnapshot {
    IngestSnapshot {
        pipeline_id: pipeline_id.to_string(),
        protocol: protocol.to_string(),
        uptime_secs: "1.0".to_string(),
        bytes_received: 7,
        remote_addr: None,
    }
}

#[test]
fn engine_is_looked_at_for_one_pipeline() {
    let ingests = vec![publisher("p0", "srt"), publisher("p1", "rtmp")];
    let mut other = output(None);
    other.pipeline_id = "p0".to_string();
    let egresses = vec![output(None), other, output(None)];
    let result = check_engine_status(0, "p1", &ingests, &egresses, &vec![], 0);
    assert!(result.issues.is_empty());
    assert_eq!(result.exit_code, 0);
    assert!(result.stdout.contains("Active ingests (all pipelines): 2"));
    assert!(result.stdout.contains("Active egresses (all pipelines): 3"));
    assert!(result.stdout.contains("Ingest protocol: rtmp"));
    assert!(result.stdout.contains("Active outputs for this pipeline: 2"));
    assert!(find_ingest(&ingests, "p2").is_none());
    assert_eq!(count_outputs(&egresses, "p0"), 1);
    let none = check_active_outputs(5, &egresses, "p2", 1_000, 0);
    assert_eq!(none.stdout, "No active outputs for this pipeline.");
}

#[test]
fn intervals_between_keyframes_are_whole() {
    let found = gop_intervals(&vec![1_000, 3_000, 2_500, 7_000]);
    assert_eq!((found.count, found.least_ms, found.largest_ms), (3, 0, 4_500));
    let found = gop_intervals(&vec![0, 2_000, 3_000]);
    assert_eq!((found.count, found.least_ms, found.largest_ms), (2, 1_000, 2_000));
    assert_eq!(gop_intervals(&vec![5]).count, 0);
}

#[test]
fn stream_info_names_the_codecs() {
    let media = Some(MediaSnapshot {
        video: Some(VideoSnapshot {
            codec: "h264".to_string(),
            width: 1920,
            height: 1080,
            fps: "30.00".to_string(),
            bitrate_kbps: None,
        }),
        audio: Some(AudioSnapshot {
            codec: "aac".to_string(),
            sample_rate: 48_000,
            channels: 2,
        }),
    });
    let result = check_ingest_stream_info(1, &media, 0);
    assert!(result.stdout.contains("h264"));
    assert!(result.stdout.contains("1920"));
    assert!(result.stdout.contains("aac"));
    assert!(!check_ingest_stream_info(1, &None, 0).issues.is_empty());
}

#[test]
fn gop_analysis_needs_keyframes() {
    let statistics = GopStatistics {
        average: reading("2.00", 2, 2),
        min: "2.00".to_string(),
        max: "2.00".to_string(),
        deviation: "0.00".to_string(),
        jitter: "0.0".to_string(),
        unstable: false,
    };
    let times = Some(vec![0, 2_000, 4_000]);
    let steady = check_gop_analysis(2, &times, &statistics, 0);
    assert!(steady.issues.is_empty());
    let unstable = GopStatistics {
        unstable: true,
        ..statistics.clone()
    };
    assert!(!check_gop_analysis(2, &times, &unstable, 0).issues.is_empty());
}

#[test]
fn reader_that_fell_behind_is_an_issue() {
    let reader = |overflow_count| ReaderSnapshot {
        name: "egress".to_string(),
        lag_slots: 3,
        overflow_count,
        packet_age_ms: Some(5),
    };
    let ring = |overflow_count| {
        Some(RingSnapshot {
            pipeline_id: "p1".to_string(),
            fill: 10,
            capacity: 1024,
            readers: vec![reader(overflow_count)],
        })
    };
    assert!(check_ring_buffer_health(4, &ring(0), 0).issues.is_empty());
    assert!(!check_ring_buffer_health(4, &ring(2), 0).issues.is_empty());
}

fn output(last_error: Option<&str>) -> EgressSnapshot {
    EgressSnapshot {
        output_id: "o1".to_string(),
        pipeline_id: "p1".to_string(),
        protocol: "rtmp".to_string(),
        status: if last_error.is_some() { "failed" } else { "running" }.to_string(),
        phase: "sending".to_string(),
        target_url: "rtmp://h/live".to_string(),
        target_addr: None,
        bytes_sent: 10,
        last_progress_ms: 1_000,
        started_at: "t0".to_string(),
        last_error: last_error.map(|e| e.to_string()),
        failure_phase: None,
        tcp: TcpQuality {
            unavailable: None,
            congestion_algorithm: None,
            rtt_ms: None,
            send_rate_mbps: None,
            notsent_bytes: None,
            unacked: None,
            total_retrans: None,
            snd_cwnd: None,
        },
        srt: SrtQuality {
            rtt_ms: None,
            send_rate_mbps: None,
            sent_loss: None,
            sent_drop: None,
            sent_retrans: None,
            bonded: None,
            connected_members: None,
            member_count: None,
            active_members: None,
            broken_members: None,
        },
    }
}

#[test]
fn failed_output_is_an_issue() {
    let good = check_active_outputs(5, &vec![output(None)], "p1", 1_000, 0);
    assert!(good.issues.is_empty());
    assert!(good.stdout.contains("o1"));
    let bad = check_active_outputs(5, &vec![output(None), output(Some("refused"))], "p1", 1_000, 0);
    assert_eq!(bad.issues.len(), 1);
    assert_ne!(bad.exit_code, 0);
    assert!(bad.issues[0].contains("refused") || bad.issues[0].contains("o1"));
}

#[test]
fn full_disk_and_busy_machine_are_issues() {
    let gib = 1_073_741_824;
    let snapshot = |available, floor| ResourceSnapshot {
        cpu_cores: 4,
        cpu: reading("x", floor, floor),
        total_memory: 8 * gib,
        used_memory: gib,
        disks: vec![DiskSnapshot {
            total: 100 * gib,
            available,
        }],
    };
    assert!(check_system_resources(6, &snapshot(90 * gib, 5), 0).issues.is_empty());
    assert!(!check_system_resources(6, &snapshot(gib, 5), 0).issues.is_empty());
    assert!(!check_system_resources(6, &snapshot(90 * gib, 99), 0).issues.is_empty());
}

#[test]
fn silent_network_is_an_issue() {
    assert!(!check_network_bandwidth(7, &Vec::new(), 0).issues.is_empty());
    let sample = InterfaceSample {
        name: "eth0".to_string(),
        seen_before: true,
        received_before: 0,
        received: 1_000_000,
        transmitted_before: 0,
        transmitted: 2_000_000,
    };
    let result = check_network_bandwidth(7, &vec![sample], 0);
    assert!(result.issues.is_empty());
    assert!(result.stdout.contains("eth0"));
}

#[test]
fn drops_at_the_listener_are_an_issue() {
    let listener = |drops| ListenerSnapshot {
        active_streams: 1,
        bonding_available: true,
        rx_queue: 0,
        rx_peak: 10,
        configured: 1_000,
        percent: "1.0".to_string(),
        whole_percent: "1".to_string(),
        drops,
    };
    assert!(check_srt_listener_socket(8, &listener(0), 0).issues.is_empty());
    assert!(!check_srt_listener_socket(8, &listener(3), 0).issues.is_empty());
}

#[test]
fn missing_publisher_is_an_issue_of_the_transport() {
    assert!(!check_publisher_transport(3, &None, "srt", 0).issues.is_empty());
}
