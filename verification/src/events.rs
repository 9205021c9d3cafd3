//! Bounded in-memory lifecycle event log.
//!
//! Captures stage, ingest and egress transitions, so that operators can see what changed lately.
//! The log holds at most [`MAX_EVENTS`] events; the oldest leaves first.

use std::collections::VecDeque;
use vstd::prelude::*;
use vstd::string::*;

use crate::text::{same_text, str_option, text_option};

verus! {

/// Maximum number of events retained. Oldest are evicted when exceeded.
pub const MAX_EVENTS: usize = 1000;

// ── Event kinds ──────────────────────────────────────────────────────────────

#[derive(Debug, Clone)]
pub enum EventKind {
    IngestConnected { pipeline_id: String, protocol: String, stream_key: String },
    IngestDisconnected { pipeline_id: String, protocol: String },
    StageStarted { pipeline_id: String, encoding: String },
    StageStopped { pipeline_id: String, encoding: String },
    EgressStarted { pipeline_id: String, output_id: String },
    EgressStopped { pipeline_id: String, output_id: String },
    EgressFailed { pipeline_id: String, output_id: String, phase: String, error: String },
}

/// What `str::to_uppercase` makes of the text: its upper-case equivalent by Unicode's rules.
pub uninterp spec fn uppercase(s: Seq<char>) -> Seq<char>;

/// `str::to_uppercase`: the result depends on the text alone.
#[verifier::external_body]
fn to_uppercase(s: &str) -> (r: String)
    ensures
        r@ == uppercase(s@),
{
    s.to_uppercase()
}

impl EventKind {
    /// The type of the event, as logs name it.
    pub open spec fn event_name(&self) -> Seq<char> {
        match self {
            EventKind::IngestConnected { .. } => "ingest.connected"@,
            EventKind::IngestDisconnected { .. } => "ingest.disconnected"@,
            EventKind::StageStarted { .. } => "stage.started"@,
            EventKind::StageStopped { .. } => "stage.stopped"@,
            EventKind::EgressStarted { .. } => "egress.started"@,
            EventKind::EgressStopped { .. } => "egress.stopped"@,
            EventKind::EgressFailed { .. } => "egress.failed"@,
        }
    }

    /// The pipeline that the event is about.
    pub open spec fn pipeline(&self) -> Seq<char> {
        match self {
            EventKind::IngestConnected { pipeline_id, .. } => pipeline_id@,
            EventKind::IngestDisconnected { pipeline_id, .. } => pipeline_id@,
            EventKind::StageStarted { pipeline_id, .. } => pipeline_id@,
            EventKind::StageStopped { pipeline_id, .. } => pipeline_id@,
            EventKind::EgressStarted { pipeline_id, .. } => pipeline_id@,
            EventKind::EgressStopped { pipeline_id, .. } => pipeline_id@,
            EventKind::EgressFailed { pipeline_id, .. } => pipeline_id@,
        }
    }

    /// The output that the event is about, for egress events.
    pub open spec fn output(&self) -> Option<Seq<char>> {
        match self {
            EventKind::EgressStarted { output_id, .. } => Some(output_id@),
            EventKind::EgressStopped { output_id, .. } => Some(output_id@),
            EventKind::EgressFailed { output_id, .. } => Some(output_id@),
            _ => None,
        }
    }

    /// The protocol of the publisher, for ingest events.
    pub open spec fn publisher_protocol(&self) -> Option<Seq<char>> {
        match self {
            EventKind::IngestConnected { protocol, .. } => Some(protocol@),
            EventKind::IngestDisconnected { protocol, .. } => Some(protocol@),
            _ => None,
        }
    }

    /// The message of the event, with the protocol of an ingest event written as `protocol`.
    pub open spec fn message_text(&self, protocol: Seq<char>) -> Seq<char> {
        match self {
            EventKind::IngestConnected { .. } => protocol + " publisher connected"@,
            EventKind::IngestDisconnected { .. } => protocol + " publisher disconnected"@,
            EventKind::StageStarted { encoding, .. } => "Stage started: "@ + encoding@,
            EventKind::StageStopped { encoding, .. } => "Stage stopped: "@ + encoding@,
            EventKind::EgressStarted { output_id, .. } => "Output started: "@ + output_id@,
            EventKind::EgressStopped { output_id, .. } => "Output stopped: "@ + output_id@,
            EventKind::EgressFailed { output_id, phase, error, .. } => "Output failed: "@
                + output_id@ + " during "@ + phase@ + " ("@ + error@ + ")"@,
        }
    }

    pub fn event_type(&self) -> (r: &'static str)
        ensures
            r@ == self.event_name(),
    {
        match self {
            EventKind::IngestConnected { .. } => "ingest.connected",
            EventKind::IngestDisconnected { .. } => "ingest.disconnected",
            EventKind::StageStarted { .. } => "stage.started",
            EventKind::StageStopped { .. } => "stage.stopped",
            EventKind::EgressStarted { .. } => "egress.started",
            EventKind::EgressStopped { .. } => "egress.stopped",
            EventKind::EgressFailed { .. } => "egress.failed",
        }
    }

    pub fn pipeline_id(&self) -> (r: &str)
        ensures
            r@ == self.pipeline(),
    {
        match self {
            EventKind::IngestConnected { pipeline_id, .. } => pipeline_id.as_str(),
            EventKind::IngestDisconnected { pipeline_id, .. } => pipeline_id.as_str(),
            EventKind::StageStarted { pipeline_id, .. } => pipeline_id.as_str(),
            EventKind::StageStopped { pipeline_id, .. } => pipeline_id.as_str(),
            EventKind::EgressStarted { pipeline_id, .. } => pipeline_id.as_str(),
            EventKind::EgressStopped { pipeline_id, .. } => pipeline_id.as_str(),
            EventKind::EgressFailed { pipeline_id, .. } => pipeline_id.as_str(),
        }
    }

    pub fn output_id(&self) -> (r: Option<&str>)
        ensures
            match r {
                Some(id) => self.output() == Some(id@),
                None => self.output() is None,
            },
    {
        match self {
            EventKind::EgressStarted { output_id, .. } => Some(output_id.as_str()),
            EventKind::EgressStopped { output_id, .. } => Some(output_id.as_str()),
            EventKind::EgressFailed { output_id, .. } => Some(output_id.as_str()),
            _ => None,
        }
    }

    /// The message of the event, with the protocol of an ingest event written as `protocol`.
    pub fn message_with(&self, protocol: &str) -> (r: String)
        ensures
            r@ == self.message_text(protocol@),
    {
        match self {
            EventKind::IngestConnected { .. } => {
                let mut out: String = protocol.to_string();
                out.append(" publisher connected");
                out
            },
            EventKind::IngestDisconnected { .. } => {
                let mut out: String = protocol.to_string();
                out.append(" publisher disconnected");
                out
            },
            EventKind::StageStarted { encoding, .. } => {
                let mut out: String = "Stage started: ".to_string();
                out.append(encoding.as_str());
                out
            },
            EventKind::StageStopped { encoding, .. } => {
                let mut out: String = "Stage stopped: ".to_string();
                out.append(encoding.as_str());
                out
            },
            EventKind::EgressStarted { output_id, .. } => {
                let mut out: String = "Output started: ".to_string();
                out.append(output_id.as_str());
                out
            },
            EventKind::EgressStopped { output_id, .. } => {
                let mut out: String = "Output stopped: ".to_string();
                out.append(output_id.as_str());
                out
            },
            EventKind::EgressFailed { output_id, phase, error, .. } => {
                let mut out: String = "Output failed: ".to_string();
                out.append(output_id.as_str());
                out.append(" during ");
                out.append(phase.as_str());
                out.append(" (");
                out.append(error.as_str());
                out.append(")");
                out
            },
        }
    }

    /// The message of the event; a protocol stands in it in upper case.
    pub fn message(&self) -> (r: String)
        ensures
            r@ == self.message_text(
                match self.publisher_protocol() {
                    Some(protocol) => uppercase(protocol),
                    None => Seq::empty(),
                },
            ),
    {
        match self {
            EventKind::IngestConnected { protocol, .. } => self.message_with(
                to_uppercase(protocol.as_str()).as_str(),
            ),
            EventKind::IngestDisconnected { protocol, .. } => self.message_with(
                to_uppercase(protocol.as_str()).as_str(),
            ),
            _ => self.message_with(""),
        }
    }

    /// A copy of the kind.
    pub fn duplicate(&self) -> (r: Self)
        ensures
            r == *self,
    {
        match self {
            EventKind::IngestConnected { pipeline_id, protocol, stream_key } =>
                EventKind::IngestConnected {
                    pipeline_id: pipeline_id.clone(),
                    protocol: protocol.clone(),
                    stream_key: stream_key.clone(),
                },
            EventKind::IngestDisconnected { pipeline_id, protocol } =>
                EventKind::IngestDisconnected {
                    pipeline_id: pipeline_id.clone(),
                    protocol: protocol.clone(),
                },
            EventKind::StageStarted { pipeline_id, encoding } => EventKind::StageStarted {
                pipeline_id: pipeline_id.clone(),
                encoding: encoding.clone(),
            },
            EventKind::StageStopped { pipeline_id, encoding } => EventKind::StageStopped {
                pipeline_id: pipeline_id.clone(),
                encoding: encoding.clone(),
            },
            EventKind::EgressStarted { pipeline_id, output_id } => EventKind::EgressStarted {
                pipeline_id: pipeline_id.clone(),
                output_id: output_id.clone(),
            },
            EventKind::EgressStopped { pipeline_id, output_id } => EventKind::EgressStopped {
                pipeline_id: pipeline_id.clone(),
                output_id: output_id.clone(),
            },
            EventKind::EgressFailed { pipeline_id, output_id, phase, error } =>
                EventKind::EgressFailed {
                    pipeline_id: pipeline_id.clone(),
                    output_id: output_id.clone(),
                    phase: phase.clone(),
                    error: error.clone(),
                },
        }
    }
}

// ── Events ───────────────────────────────────────────────────────────────────

/// A moment in UTC: whole seconds since the Unix epoch, and nanoseconds within the second.
#[derive(Debug, Clone, Copy, PartialEq, Eq, Structural)]
pub struct Timestamp {
    pub seconds: i64,
    pub nanos: u32,
}

#[derive(Debug, Clone)]
pub struct Event {
    /// Monotonically increasing sequence number within this process lifetime.
    pub seq: u64,
    pub timestamp: Timestamp,
    pub kind: EventKind,
}

impl Event {
    /// A copy of the event.
    pub fn duplicate(&self) -> (r: Self)
        ensures
            r == *self,
    {
        Event { seq: self.seq, timestamp: self.timestamp, kind: self.kind.duplicate() }
    }

    /// Whether the event is about `pipeline`; every event is, where there is none to ask for.
    pub open spec fn concerns(&self, pipeline: Option<Seq<char>>) -> bool {
        match pipeline {
            Some(p) => self.kind.pipeline() == p,
            None => true,
        }
    }
}

/// `chrono::Utc::now`: the time by the system clock, of which nothing is claimed.
#[verifier::external_body]
fn utc_now() -> Timestamp {
    let now = chrono::Utc::now();
    Timestamp { seconds: now.timestamp(), nanos: now.timestamp_subsec_nanos() }
}

// ── Listeners ────────────────────────────────────────────────────────────────

#[verifier::external_type_specification]
#[verifier::external_body]
#[verifier::reject_recursive_types(T)]
pub struct ExUnboundedSender<T>(tokio::sync::mpsc::UnboundedSender<T>);

/// The events that have been given to a sender's `send`, in order.
pub uninterp spec fn handed(sink: tokio::sync::mpsc::UnboundedSender<Event>) -> Seq<Event>;

/// `tokio::sync::mpsc::UnboundedSender::send`: one more event is given to the sender, after those
/// before it. Where nobody receives any more, the event is given back; whether somebody does is not
/// known beforehand.
#[verifier::external_body]
fn send_event(sink: &mut tokio::sync::mpsc::UnboundedSender<Event>, event: Event) -> (r: Result<
    (),
    Event,
>)
    ensures
        handed(*final(sink)) == handed(*old(sink)).push(event),
        r matches Err(e) ==> e == event,
{
    sink.send(event).map_err(|unsent| unsent.0)
}

// ── The log ──────────────────────────────────────────────────────────────────

pub struct EventLog {
    events: VecDeque<Event>,
    next_seq: u64,
    sink: Option<tokio::sync::mpsc::UnboundedSender<Event>>,
}

/// What a log holds: its events, oldest first, the number of the next one, and the sender of its
/// listener.
pub struct EventLogModel {
    pub events: Seq<Event>,
    pub next_seq: int,
    pub sink: Option<tokio::sync::mpsc::UnboundedSender<Event>>,
}

/// The events once `event` has come: the oldest is gone where the log was full.
pub open spec fn appended(events: Seq<Event>, event: Event) -> Seq<Event> {
    if events.len() >= MAX_EVENTS {
        events.skip(1).push(event)
    } else {
        events.push(event)
    }
}

/// The events about `pipeline`, in order.
pub open spec fn matching(events: Seq<Event>, pipeline: Option<Seq<char>>) -> Seq<Event> {
    events.filter(|e: Event| e.concerns(pipeline))
}

/// The last `limit` of the events, or all of them where there are fewer.
pub open spec fn newest(events: Seq<Event>, limit: int) -> Seq<Event> {
    if events.len() <= limit {
        events
    } else {
        events.skip(events.len() - limit)
    }
}

impl EventLogModel {
    /// What the listener has been handed, where there is one.
    pub open spec fn heard(self) -> Option<Seq<Event>> {
        match self.sink {
            Some(sink) => Some(handed(sink)),
            None => None,
        }
    }

    /// The log is bounded, and holds the events with the latest numbers, without a gap.
    pub open spec fn wf(self) -> bool {
        &&& self.events.len() <= MAX_EVENTS
        &&& self.next_seq >= 1 + self.events.len()
        &&& forall|i: int|
            0 <= i < self.events.len() ==> (#[trigger] self.events[i]).seq == self.next_seq
                - self.events.len() + i
    }
}

impl View for EventLog {
    type V = EventLogModel;

    closed spec fn view(&self) -> EventLogModel {
        EventLogModel {
            events: self.events@,
            next_seq: self.next_seq as int,
            sink: self.sink,
        }
    }
}

impl EventLog {
    pub fn new() -> (r: Self)
        ensures
            r@ == (EventLogModel { events: Seq::empty(), next_seq: 1, sink: None }),
            r@.wf(),
    {
        EventLog { events: VecDeque::with_capacity(MAX_EVENTS), next_seq: 1, sink: None }
    }

    /// From now on every event that is emitted goes to this sender, and to none that was set before.
    pub fn set_sink(&mut self, sink: tokio::sync::mpsc::UnboundedSender<Event>)
        ensures
            final(self)@ == (EventLogModel { sink: Some(sink), ..old(self)@ }),
            final(self)@.heard() == Some(handed(sink)),
    {
        self.sink = Some(sink);
    }

    /// Adds an event with the next number and the given time, and returns it.
    pub fn record(&mut self, kind: EventKind, timestamp: Timestamp) -> (r: Event)
        requires
            old(self)@.wf(),
            old(self)@.next_seq < u64::MAX,
        ensures
            r == (Event { seq: old(self)@.next_seq as u64, timestamp, kind }),
            final(self)@ == (EventLogModel {
                events: appended(old(self)@.events, r),
                next_seq: old(self)@.next_seq + 1,
                sink: old(self)@.sink,
            }),
            final(self)@.wf(),
    {
        let seq: u64 = self.next_seq;
        self.next_seq = self.next_seq + 1;
        if self.events.len() >= MAX_EVENTS {
            let _evicted: Option<Event> = self.events.pop_front();
            assert(self.events@ =~= old(self)@.events.skip(1));
        }
        let event: Event = Event { seq, timestamp, kind };
        self.events.push_back(event.duplicate());
        event
    }

    /// Emits an event at the present time, hands it to the listener, and returns it. A listener
    /// that is gone is passed over.
    pub fn emit(&mut self, kind: EventKind) -> (r: Event)
        requires
            old(self)@.wf(),
            old(self)@.next_seq < u64::MAX,
        ensures
            r.seq == old(self)@.next_seq,
            r.kind == kind,
            final(self)@.events == appended(old(self)@.events, r),
            final(self)@.next_seq == old(self)@.next_seq + 1,
            final(self)@.heard() == match old(self)@.heard() {
                Some(events) => Some(events.push(r)),
                None => None,
            },
            final(self)@.wf(),
    {
        let timestamp: Timestamp = utc_now();
        let event: Event = self.record(kind, timestamp);
        match self.sink.take() {
            Some(mut sink) => {
                let _unheard: Result<(), Event> = send_event(&mut sink, event.duplicate());
                self.sink = Some(sink);
            },
            None => {},
        }
        event
    }

    /// Up to `limit` most recent events, oldest first, of one pipeline or of all.
    pub fn recent(&self, limit: usize, pipeline_id: Option<&str>) -> (r: Vec<Event>)
        ensures
            r@ == newest(matching(self@.events, str_option(pipeline_id)), limit as int),
    {
        let ghost all = self.events@;
        let ghost pipeline = str_option(pipeline_id);
        let mut from: usize = self.events.len();
        let mut count: usize = 0;
        assert(all.skip(from as int) =~= Seq::<Event>::empty());
        assert(matching(Seq::<Event>::empty(), pipeline) =~= Seq::<Event>::empty()) by {
            reveal(Seq::filter);
        }
        while from > 0 && count < limit
            invariant
                all == self.events@,
                pipeline == str_option(pipeline_id),
                from <= all.len(),
                count <= limit,
                count <= all.len() - from,
                count == matching(all.skip(from as int), pipeline).len(),
            decreases from,
        {
            from -= 1;
            proof {
                lemma_matching_from(all, from as int, pipeline);
            }
            if concerns(&self.events[from], pipeline_id) {
                count += 1;
            }
        }
        let mut out: Vec<Event> = Vec::new();
        let mut i: usize = from;
        assert(all.subrange(from as int, i as int) =~= Seq::<Event>::empty());
        while i < self.events.len()
            invariant
                all == self.events@,
                pipeline == str_option(pipeline_id),
                from <= i <= all.len(),
                out@ == matching(all.subrange(from as int, i as int), pipeline),
            decreases all.len() - i,
        {
            proof {
                lemma_matching_push(all.subrange(from as int, i as int), all[i as int], pipeline);
                assert(all.subrange(from as int, i + 1) =~= all.subrange(from as int, i as int).push(
                    all[i as int],
                ));
            }
            if concerns(&self.events[i], pipeline_id) {
                out.push(self.events[i].duplicate());
            }
            i += 1;
        }
        proof {
            assert(all.subrange(from as int, all.len() as int) =~= all.skip(from as int));
            assert(all =~= all.take(from as int) + all.skip(from as int));
            let pred = |e: Event| e.concerns(pipeline);
            Seq::filter_distributes_over_add(all.take(from as int), all.skip(from as int), pred);
            let head = matching(all.take(from as int), pipeline);
            assert(matching(all, pipeline) == head + out@);
            assert((head + out@).skip(head.len() as int) =~= out@);
            if from == 0 {
                assert(all.take(0) =~= Seq::<Event>::empty());
                assert(head + out@ =~= out@);
            }
        }
        out
    }
}

fn concerns(event: &Event, pipeline_id: Option<&str>) -> (r: bool)
    ensures
        r == event.concerns(str_option(pipeline_id)),
{
    match pipeline_id {
        Some(id) => same_text(event.kind.pipeline_id(), id),
        None => true,
    }
}

proof fn lemma_matching_push(events: Seq<Event>, e: Event, pipeline: Option<Seq<char>>)
    ensures
        matching(events.push(e), pipeline) == if e.concerns(pipeline) {
            matching(events, pipeline).push(e)
        } else {
            matching(events, pipeline)
        },
{
    let pred = |e: Event| e.concerns(pipeline);
    reveal(Seq::filter);
    assert(events.push(e).drop_last() =~= events);
}

proof fn lemma_matching_from(events: Seq<Event>, from: int, pipeline: Option<Seq<char>>)
    requires
        0 <= from < events.len(),
    ensures
        matching(events.skip(from), pipeline).len() == matching(
            events.skip(from + 1),
            pipeline,
        ).len() + if events[from].concerns(pipeline) {
            1int
        } else {
            0int
        },
{
    let pred = |e: Event| e.concerns(pipeline);
    let one = seq![events[from]];
    assert(events.skip(from) =~= one + events.skip(from + 1));
    Seq::filter_distributes_over_add(one, events.skip(from + 1), pred);
    assert(one =~= Seq::<Event>::empty().push(events[from]));
    assert(matching(Seq::<Event>::empty(), pipeline) =~= Seq::<Event>::empty()) by {
        reveal(Seq::filter);
    }
    lemma_matching_push(Seq::empty(), events[from], pipeline);
}

impl Default for EventLog {
    fn default() -> (r: Self)
        ensures
            r@ == (EventLogModel { events: Seq::empty(), next_seq: 1, sink: None }),
    {
        EventLog::new()
    }
}

// ── Log records ──────────────────────────────────────────────────────────────

/// How urgent a log record is.
#[derive(Debug, Clone, Copy, PartialEq, Eq, Structural)]
pub enum Level {
    Info,
    Error,
}

/// What the application log keeps of a lifecycle event. The stream key is never part of it.
pub struct RuntimeEventRecord {
    pub level: Level,
    pub pipeline_id: String,
    pub output_id: Option<String>,
    pub event_class: &'static str,
    pub event_type: &'static str,
    pub protocol: Option<String>,
    pub encoding: Option<String>,
    pub phase: Option<String>,
    pub error: Option<String>,
    pub seq: u64,
    pub message: &'static str,
}

/// The message of the record of an event.
pub open spec fn record_message(kind: EventKind) -> Seq<char> {
    match kind {
        EventKind::IngestConnected { .. } => "publisher connected"@,
        EventKind::IngestDisconnected { .. } => "publisher disconnected"@,
        EventKind::StageStarted { .. } => "stage started"@,
        EventKind::StageStopped { .. } => "stage stopped"@,
        EventKind::EgressStarted { .. } => "output started"@,
        EventKind::EgressStopped { .. } => "output stopped"@,
        EventKind::EgressFailed { .. } => "output failed"@,
    }
}

/// The encoding of a stage event.
pub open spec fn stage_encoding(kind: EventKind) -> Option<Seq<char>> {
    match kind {
        EventKind::StageStarted { encoding, .. } => Some(encoding@),
        EventKind::StageStopped { encoding, .. } => Some(encoding@),
        _ => None,
    }
}

/// The phase and the error of a failed egress.
pub open spec fn failure(kind: EventKind) -> Option<(Seq<char>, Seq<char>)> {
    match kind {
        EventKind::EgressFailed { phase, error, .. } => Some((phase@, error@)),
        _ => None,
    }
}

/// The record that the application log keeps of `event`: an error for a failed egress, information
/// for everything else.
pub fn runtime_event_record(event: &Event) -> (r: RuntimeEventRecord)
    ensures
        r.level == (if event.kind is EgressFailed {
            Level::Error
        } else {
            Level::Info
        }),
        r.pipeline_id@ == event.kind.pipeline(),
        text_option(r.output_id) == event.kind.output(),
        r.event_class@ == "lifecycle"@,
        r.event_type@ == event.kind.event_name(),
        text_option(r.protocol) == event.kind.publisher_protocol(),
        text_option(r.encoding) == stage_encoding(event.kind),
        match failure(event.kind) {
            Some((phase, error)) => text_option(r.phase) == Some(phase) && text_option(r.error)
                == Some(error),
            None => r.phase is None && r.error is None,
        },
        r.seq == event.seq,
        r.message@ == record_message(event.kind),
{
    let kind: &EventKind = &event.kind;
    let mut record: RuntimeEventRecord = RuntimeEventRecord {
        level: Level::Info,
        pipeline_id: kind.pipeline_id().to_string(),
        output_id: match kind.output_id() {
            Some(id) => Some(id.to_string()),
            None => None,
        },
        event_class: "lifecycle",
        event_type: kind.event_type(),
        protocol: None,
        encoding: None,
        phase: None,
        error: None,
        seq: event.seq,
        message: "",
    };
    match kind {
        EventKind::IngestConnected { protocol, .. } => {
            record.protocol = Some(protocol.clone());
            record.message = "publisher connected";
        },
        EventKind::IngestDisconnected { protocol, .. } => {
            record.protocol = Some(protocol.clone());
            record.message = "publisher disconnected";
        },
        EventKind::StageStarted { encoding, .. } => {
            record.encoding = Some(encoding.clone());
            record.message = "stage started";
        },
        EventKind::StageStopped { encoding, .. } => {
            record.encoding = Some(encoding.clone());
            record.message = "stage stopped";
        },
        EventKind::EgressStarted { .. } => {
            record.message = "output started";
        },
        EventKind::EgressStopped { .. } => {
            record.message = "output stopped";
        },
        EventKind::EgressFailed { phase, error, .. } => {
            record.level = Level::Error;
            record.phase = Some(phase.clone());
            record.error = Some(error.clone());
            record.message = "output failed";
        },
    }
    record
}

// ── Laws ─────────────────────────────────────────────────────────────────────

/// Whether the events come in the order of their numbers, no number twice.
pub open spec fn chronological(events: Seq<Event>) -> bool {
    forall|i: int, j: int|
        0 <= i < j < events.len() ==> (#[trigger] events[i]).seq < (#[trigger] events[j]).seq
}

/// The events of a log come in the order of their numbers.
pub proof fn log_is_chronological(log: EventLogModel)
    requires
        log.wf(),
    ensures
        chronological(log.events),
{
}

proof fn lemma_matching_chronological(events: Seq<Event>, pipeline: Option<Seq<char>>)
    requires
        chronological(events),
    ensures
        chronological(matching(events, pipeline)),
        matching(events, pipeline).len() <= events.len(),
        forall|i: int|
            0 <= i < matching(events, pipeline).len() ==> (#[trigger] matching(
                events,
                pipeline,
            )[i]).seq <= events.last().seq && matching(events, pipeline)[i].concerns(pipeline),
    decreases events.len(),
{
    reveal(Seq::filter);
    if events.len() > 0 {
        let front = events.drop_last();
        assert(chronological(front)) by {
            assert forall|i: int, j: int| 0 <= i < j < front.len() implies (
            #[trigger] front[i]).seq < (#[trigger] front[j]).seq by {
                assert(front[i] == events[i] && front[j] == events[j]);
            }
        }
        lemma_matching_chronological(front, pipeline);
        assert(events =~= front.push(events.last()));
        lemma_matching_push(front, events.last(), pipeline);
        let m = matching(events, pipeline);
        let f = matching(front, pipeline);
        assert forall|i: int| 0 <= i < f.len() implies (#[trigger] f[i]).seq
            < events.last().seq by {
            assert(front.len() > 0);
            assert(front.last() == events[events.len() - 2]);
        }
    }
}

/// What `recent` returns comes in order, is about the pipeline that was asked for, and is as much
/// as the limit and the log allow.
pub proof fn recent_is_ordered_filtered_and_bounded(
    log: EventLogModel,
    limit: nat,
    pipeline: Option<Seq<char>>,
)
    requires
        log.wf(),
    ensures
        ({
            let r = newest(matching(log.events, pipeline), limit as int);
            &&& chronological(r)
            &&& forall|i: int| 0 <= i < r.len() ==> (#[trigger] r[i]).concerns(pipeline)
            &&& r.len() <= limit
            &&& r.len() <= MAX_EVENTS
            &&& r.len() == limit || r.len() == matching(log.events, pipeline).len()
        }),
{
    lemma_matching_chronological(log.events, pipeline);
}

/// The log once the given events have come, one after another, into an empty one.
pub open spec fn history(events: Seq<Event>) -> Seq<Event>
    decreases events.len(),
{
    if events.len() == 0 {
        Seq::empty()
    } else {
        appended(history(events.drop_last()), events.last())
    }
}

/// Whatever has come, the log holds exactly the latest events that it has room for.
pub proof fn log_holds_the_newest(events: Seq<Event>)
    ensures
        history(events) == newest(events, MAX_EVENTS as int),
    decreases events.len(),
{
    if events.len() > 0 {
        log_holds_the_newest(events.drop_last());
        assert(history(events) =~= newest(events, MAX_EVENTS as int));
    } else {
        assert(history(events) =~= newest(events, MAX_EVENTS as int));
    }
}

/// The stream key of a publisher does not reach its message or its record.
pub proof fn stream_key_stays_out_of_messages(
    pipeline_id: String,
    protocol: String,
    key1: String,
    key2: String,
    upper: Seq<char>,
)
    ensures
        ({
            let a = EventKind::IngestConnected { pipeline_id, protocol, stream_key: key1 };
            let b = EventKind::IngestConnected { pipeline_id, protocol, stream_key: key2 };
            &&& a.message_text(upper) == b.message_text(upper)
            &&& record_message(a) == record_message(b)
            &&& a.pipeline() == b.pipeline() && a.output() == b.output()
            &&& a.publisher_protocol() == b.publisher_protocol()
            &&& stage_encoding(a) == stage_encoding(b) && failure(a) == failure(b)
        }),
{
}

/// What is recent of a log: the events about the pipeline that is asked for, or all of them, as long
/// as there is room for them.
pub proof fn recent_holds_what_is_asked_for(
    events: Seq<Event>,
    limit: int,
    pipeline: Seq<char>,
    e: Event,
)
    requires
        events.len() <= limit,
    ensures
        newest(matching(events, Some(pipeline)), limit).contains(e) <==> events.contains(e)
            && e.kind.pipeline() == pipeline,
        newest(matching(events, None), limit) == events,
{
    lemma_filtered(events, Some(pipeline), e);
    lemma_unfiltered(events);
}

proof fn lemma_filtered(events: Seq<Event>, pipeline: Option<Seq<char>>, e: Event)
    ensures
        matching(events, pipeline).len() <= events.len(),
        matching(events, pipeline).contains(e) <==> events.contains(e) && e.concerns(pipeline),
    decreases events.len(),
{
    reveal(Seq::filter);
    if events.len() > 0 {
        let front = events.drop_last();
        lemma_filtered(front, pipeline, e);
        assert(events =~= front.push(events.last()));
        lemma_matching_push(front, events.last(), pipeline);
        let (m, f) = (matching(events, pipeline), matching(front, pipeline));
        if f.contains(e) {
            let i = f.index_of(e);
            assert(m[i] == e);
        }
        if m.contains(e) {
            let i = m.index_of(e);
            if i < f.len() {
                assert(f[i] == e);
            }
        }
        if front.contains(e) {
            let i = front.index_of(e);
            assert(events[i] == e);
        }
        if events.contains(e) {
            let i = events.index_of(e);
            if i < front.len() {
                assert(front[i] == e);
            } else if e.concerns(pipeline) {
                assert(m[m.len() - 1] == e);
            }
        }
    }
}

proof fn lemma_unfiltered(events: Seq<Event>)
    ensures
        matching(events, None) == events,
    decreases events.len(),
{
    reveal(Seq::filter);
    if events.len() > 0 {
        let front = events.drop_last();
        lemma_unfiltered(front);
        assert(events =~= front.push(events.last()));
        lemma_matching_push(front, events.last(), None);
    } else {
        assert(matching(events, None) =~= events);
    }
}

/// Where there are more events than are asked for, the latest of them are given, in order.
pub proof fn older_events_are_left_out_first(events: Seq<Event>, limit: int, k: int)
    requires
        0 <= limit < events.len(),
        0 <= k < limit,
    ensures
        newest(events, limit).len() == limit,
        newest(events, limit)[k] == events[events.len() - limit + k],
{
}

/// A log keeps the latest thousand events: a new one goes to the end, and pushes the oldest out only
/// where there are that many.
pub proof fn log_keeps_a_thousand(events: Seq<Event>, e: Event)
    requires
        events.len() <= 1000,
    ensures
        appended(events, e).last() == e,
        events.len() < 1000 ==> appended(events, e).drop_last() == events,
        events.len() == 1000 ==> appended(events, e).len() == 1000 && appended(events, e).drop_last()
            == events.skip(1),
{
    assert(events.len() < 1000 ==> appended(events, e).drop_last() =~= events);
    assert(events.len() == 1000 ==> appended(events, e).drop_last() =~= events.skip(1));
}

/// Events of publishers tell their pipeline and protocol, under their own names.
pub proof fn publisher_events_tell_who_came_and_went(
    pipeline_id: String,
    protocol: String,
    stream_key: String,
    shown: Seq<char>,
)
    ensures
        ({
            let came = EventKind::IngestConnected { pipeline_id, protocol, stream_key };
            let went = EventKind::IngestDisconnected { pipeline_id, protocol };
            &&& came.event_name() == "ingest.connected"@ && went.event_name()
                == "ingest.disconnected"@
            &&& came.pipeline() == pipeline_id@ && went.pipeline() == pipeline_id@
            &&& came.output() is None && went.output() is None
            &&& came.publisher_protocol() == Some(protocol@) && went.publisher_protocol() == Some(
                protocol@,
            )
            &&& came.message_text(shown) == shown + " publisher connected"@
            &&& went.message_text(shown) == shown + " publisher disconnected"@
            &&& record_message(came) == "publisher connected"@ && record_message(went)
                == "publisher disconnected"@
        }),
{
}

/// Events of stages tell their pipeline and encoding, under their own names.
pub proof fn stage_events_tell_what_started_and_stopped(
    pipeline_id: String,
    encoding: String,
    shown: Seq<char>,
)
    ensures
        ({
            let started = EventKind::StageStarted { pipeline_id, encoding };
            let stopped = EventKind::StageStopped { pipeline_id, encoding };
            &&& started.event_name() == "stage.started"@ && stopped.event_name() == "stage.stopped"@
            &&& started.pipeline() == pipeline_id@ && stopped.pipeline() == pipeline_id@
            &&& started.output() is None && stopped.output() is None
            &&& stage_encoding(started) == Some(encoding@) && stage_encoding(stopped) == Some(
                encoding@,
            )
            &&& started.message_text(shown) == "Stage started: "@ + encoding@
            &&& stopped.message_text(shown) == "Stage stopped: "@ + encoding@
            &&& record_message(started) == "stage started"@ && record_message(stopped)
                == "stage stopped"@
            &&& failure(started) is None && failure(stopped) is None
        }),
{
}

/// Events of outputs tell their pipeline and output, under their own names; one that failed tells the
/// phase and the error.
pub proof fn output_events_tell_what_became_of_it(
    pipeline_id: String,
    output_id: String,
    phase: String,
    error: String,
    shown: Seq<char>,
)
    ensures
        ({
            let started = EventKind::EgressStarted { pipeline_id, output_id };
            let stopped = EventKind::EgressStopped { pipeline_id, output_id };
            let failed = EventKind::EgressFailed { pipeline_id, output_id, phase, error };
            &&& started.event_name() == "egress.started"@ && stopped.event_name()
                == "egress.stopped"@ && failed.event_name() == "egress.failed"@
            &&& started.pipeline() == pipeline_id@ && stopped.pipeline() == pipeline_id@
                && failed.pipeline() == pipeline_id@
            &&& started.output() == Some(output_id@) && stopped.output() == Some(output_id@)
                && failed.output() == Some(output_id@)
            &&& started.message_text(shown) == "Output started: "@ + output_id@
            &&& stopped.message_text(shown) == "Output stopped: "@ + output_id@
            &&& failed.message_text(shown) == "Output failed: "@ + output_id@ + " during "@ + phase@
                + " ("@ + error@ + ")"@
            &&& record_message(started) == "output started"@ && record_message(stopped)
                == "output stopped"@ && record_message(failed) == "output failed"@
            &&& failure(failed) == Some((phase@, error@)) && failure(started) is None && failure(
                stopped,
            ) is None
            &&& stage_encoding(failed) is None && failed.publisher_protocol() is None
        }),
{
}

} // verus!
