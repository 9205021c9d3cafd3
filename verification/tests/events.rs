use restream::events::{runtime_event_record, EventKind, EventLog, Level, MAX_EVENTS};

fn connected(pid: &str) -> EventKind {
    EventKind::IngestConnected {
        pipeline_id: pid.to_string(),
        protocol: "rtmp".to_string(),
        stream_key: "key".to_string(),
    }
}

#[test]
fn recent_returns_events_in_chronological_order() {
    let mut log = EventLog::new();
    log.emit(connected("p1"));
    log.emit(connected("p2"));
    log.emit(connected("p3"));
    let events = log.recent(100, None);
    assert_eq!(events.len(), 3);
    assert!(events[0].seq < events[1].seq);
    assert!(events[1].seq < events[2].seq);
}

#[test]
fn recent_filters_by_pipeline_id() {
    let mut log = EventLog::new();
    log.emit(connected("p1"));
    log.emit(connected("p2"));
    log.emit(connected("p1"));
    let p1 = log.recent(100, Some("p1"));
    assert_eq!(p1.len(), 2);
    assert!(p1.iter().all(|e| e.kind.pipeline_id() == "p1"));
}

#[test]
fn recent_respects_limit() {
    let mut log = EventLog::new();
    for _ in 0..10 {
        log.emit(connected("p1"));
    }
    assert_eq!(log.recent(3, None).len(), 3);
}

#[test]
fn bounded_evicts_oldest() {
    let mut log = EventLog::new();
    // Emit MAX_EVENTS + 1 events
    for i in 0..=(MAX_EVENTS as u64) {
        let _ = i; // suppress unused warning
        log.emit(connected("p1"));
    }
    let events = log.recent(MAX_EVENTS + 1, None);
    assert_eq!(events.len(), MAX_EVENTS);
    // The first seq in the log should be > 1 (oldest evicted)
    assert!(events[0].seq > 1);
}

#[test]
fn event_type_returns_correct_string_for_all_variants() {
    assert_eq!(
        EventKind::IngestConnected {
            pipeline_id: "p".into(),
            protocol: "rtmp".into(),
            stream_key: "k".into()
        }
        .event_type(),
        "ingest.connected"
    );
    assert_eq!(
        EventKind::IngestDisconnected {
            pipeline_id: "p".into(),
            protocol: "srt".into()
        }
        .event_type(),
        "ingest.disconnected"
    );
    assert_eq!(
        EventKind::StageStarted {
            pipeline_id: "p".into(),
            encoding: "720p".into()
        }
        .event_type(),
        "stage.started"
    );
    assert_eq!(
        EventKind::StageStopped {
            pipeline_id: "p".into(),
            encoding: "720p".into()
        }
        .event_type(),
        "stage.stopped"
    );
    assert_eq!(
        EventKind::EgressStarted {
            pipeline_id: "p".into(),
            output_id: "o1".into()
        }
        .event_type(),
        "egress.started"
    );
    assert_eq!(
        EventKind::EgressStopped {
            pipeline_id: "p".into(),
            output_id: "o1".into()
        }
        .event_type(),
        "egress.stopped"
    );
    assert_eq!(
        EventKind::EgressFailed {
            pipeline_id: "p".into(),
            output_id: "o1".into(),
            phase: "sending".into(),
            error: "timeout".into()
        }
        .event_type(),
        "egress.failed"
    );
}

#[test]
fn output_id_is_some_for_egress_variants_and_none_for_ingest() {
    let egress_started = EventKind::EgressStarted {
        pipeline_id: "p".into(),
        output_id: "out-1".into(),
    };
    assert_eq!(egress_started.output_id(), Some("out-1"));

    let egress_stopped = EventKind::EgressStopped {
        pipeline_id: "p".into(),
        output_id: "out-2".into(),
    };
    assert_eq!(egress_stopped.output_id(), Some("out-2"));

    let egress_failed = EventKind::EgressFailed {
        pipeline_id: "p".into(),
        output_id: "out-3".into(),
        phase: "connecting".into(),
        error: "refused".into(),
    };
    assert_eq!(egress_failed.output_id(), Some("out-3"));

    let ingest = EventKind::IngestConnected {
        pipeline_id: "p".into(),
        protocol: "rtmp".into(),
        stream_key: "k".into(),
    };
    assert!(ingest.output_id().is_none());

    let stage = EventKind::StageStarted {
        pipeline_id: "p".into(),
        encoding: "source".into(),
    };
    assert!(stage.output_id().is_none());
}

#[test]
fn message_contains_identifying_info_for_all_variants() {
    assert!(EventKind::IngestConnected {
        pipeline_id: "p".into(),
        protocol: "rtmp".into(),
        stream_key: "k".into()
    }
    .message()
    .contains("RTMP"));

    assert!(EventKind::IngestDisconnected {
        pipeline_id: "p".into(),
        protocol: "srt".into()
    }
    .message()
    .contains("SRT"));

    assert!(EventKind::StageStarted {
        pipeline_id: "p".into(),
        encoding: "720p".into()
    }
    .message()
    .contains("720p"));

    assert!(EventKind::StageStopped {
        pipeline_id: "p".into(),
        encoding: "source".into()
    }
    .message()
    .contains("source"));

    assert!(EventKind::EgressStarted {
        pipeline_id: "p".into(),
        output_id: "out-abc".into()
    }
    .message()
    .contains("out-abc"));

    assert!(EventKind::EgressStopped {
        pipeline_id: "p".into(),
        output_id: "out-abc".into()
    }
    .message()
    .contains("out-abc"));

    let failed_msg = EventKind::EgressFailed {
        pipeline_id: "p".into(),
        output_id: "out-abc".into(),
        phase: "sending".into(),
        error: "connection reset".into(),
    }
    .message();
    assert!(failed_msg.contains("out-abc"));
    assert!(failed_msg.contains("sending"));
    assert!(failed_msg.contains("connection reset"));
}

#[test]
fn events_of_a_log_carry_a_time() {
    let mut log = EventLog::new();
    let event = log.emit(connected("p1"));
    // any time after the start of 2020
    assert!(event.timestamp.seconds > 1_577_836_800);
    assert!(event.timestamp.nanos < 2_000_000_000);
}

#[test]
fn newest_events_are_given_in_order() {
    let mut log = EventLog::new();
    for pid in ["a", "b", "a", "b", "a"] {
        log.emit(connected(pid));
    }
    let seqs: Vec<u64> = log.recent(2, Some("a")).iter().map(|e| e.seq).collect();
    let all: Vec<u64> = log.recent(10, None).iter().map(|e| e.seq).collect();
    assert_eq!(seqs, vec![all[2], all[4]]);
    assert!(log.recent(0, None).is_empty());
}

#[test]
fn records_tell_what_failed() {
    let mut log = EventLog::new();
    let event = log.emit(EventKind::EgressFailed {
        pipeline_id: "p".to_string(),
        output_id: "o".to_string(),
        phase: "connect".to_string(),
        error: "refused".to_string(),
    });
    let record = runtime_event_record(&event);
    assert_eq!(record.level, Level::Error);
    assert_eq!(record.output_id.as_deref(), Some("o"));
    assert_eq!(record.phase.as_deref(), Some("connect"));
    assert_eq!(record.error.as_deref(), Some("refused"));
    assert_eq!(record.event_type, "egress.failed");
    let record = runtime_event_record(&log.emit(connected("p")));
    assert_eq!(record.level, Level::Info);
    assert_eq!(record.message, "publisher connected");
}

#[test]
fn stream_keys_stay_out_of_messages() {
    let event = EventKind::IngestConnected {
        pipeline_id: "p".to_string(),
        protocol: "rtmp".to_string(),
        stream_key: "hidden".to_string(),
    };
    assert!(!event.message().contains("hidden"));
}

#[test]
fn set_sink_receives_emitted_events() {
    let mut log = EventLog::new();
    let (tx, mut rx) = tokio::sync::mpsc::unbounded_channel();
    log.set_sink(tx);
    log.emit(connected("p1"));

    let event = rx.try_recv().expect("event in channel");
    assert_eq!(event.kind.pipeline_id(), "p1");
}

#[test]
fn listener_hears_each_event_once() {
    let mut log = EventLog::new();
    log.emit(connected("p0"));
    let (first, mut heard_first) = tokio::sync::mpsc::unbounded_channel();
    log.set_sink(first);
    log.emit(connected("p1"));
    let (second, mut heard_second) = tokio::sync::mpsc::unbounded_channel();
    log.set_sink(second);
    log.emit(connected("p2"));
    let heard = heard_first.try_recv().expect("event in channel");
    assert_eq!((heard.seq, heard.kind.pipeline_id()), (2, "p1"));
    assert!(heard_first.try_recv().is_err());
    let heard = heard_second.try_recv().expect("event in channel");
    let kept = log.recent(1, None);
    assert_eq!((heard.seq, heard.kind.pipeline_id()), (3, "p2"));
    assert_eq!(kept[0].seq, heard.seq);
    assert!(heard_second.try_recv().is_err());
}

#[test]
fn log_goes_on_without_its_listener() {
    let mut log = EventLog::new();
    let (tx, rx) = tokio::sync::mpsc::unbounded_channel();
    log.set_sink(tx);
    drop(rx);
    let event = log.emit(connected("p1"));
    assert_eq!(event.seq, 1);
    assert_eq!(log.recent(10, None).len(), 1);
}
