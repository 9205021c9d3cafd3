//! The server's log, as a scenario reads it.

use vstd::prelude::*;
use vstd::string::*;

use crate::json::{json_in, parse_json, same_json, Json};
use crate::text::{contains, contains_text, join, joined, texts, trim, trimmed};

verus! {

// ── Entries ──────────────────────────────────────────────────────────────────

/// The fields of an entry: an object, or a text that holds one in JSON.
pub open spec fn fields_of(log: Json) -> Option<Json> {
    match log.field("fields"@) {
        Some(Json::Object(f)) => Some(Json::Object(f)),
        Some(Json::Text(raw)) => if trimmed(raw@).len() == 0 {
            None
        } else {
            json_in(raw@)
        },
        _ => None,
    }
}

/// The fields of an entry.
pub fn parse_log_fields(log: &Json) -> (r: Option<Json>)
    ensures
        match fields_of(*log) {
            Some(fields) => r is Some && (same_json(r->0, fields) || r->0 == fields),
            None => r is None,
        },
{
    match log.get("fields") {
        Some(fields) => match fields {
            Json::Object(_) => Some(fields.duplicate()),
            Json::Text(raw) => if trim(raw.as_str()).as_str().is_empty() {
                None
            } else {
                parse_json(raw.as_str())
            },
            _ => None,
        },
        None => None,
    }
}

/// The correlation id among fields, in either spelling, where it is a text.
pub open spec fn correlation_in(fields: Json) -> Option<Seq<char>> {
    match fields.text_field("correlation_id"@) {
        Some(id) => Some(id),
        None => fields.text_field("correlationId"@),
    }
}

/// Whether fields hold a correlation id that is more than white space.
pub open spec fn correlates(fields: Json) -> bool {
    correlation_in(fields) matches Some(id) && trimmed(id).len() > 0
}

/// Whether an entry holds a correlation id.
pub open spec fn is_correlated(log: Json) -> bool {
    fields_of(log) matches Some(fields) && correlates(fields)
}

/// Whether fields hold a correlation id.
pub fn fields_correlate(fields: &Json) -> (r: bool)
    ensures
        r == correlates(*fields),
{
    let id: Option<&str> = match fields.get_text("correlation_id") {
        Some(id) => Some(id),
        None => fields.get_text("correlationId"),
    };
    match id {
        Some(id) => !trim(id).as_str().is_empty(),
        None => false,
    }
}

/// Whether an entry holds a correlation id.
pub fn log_has_correlation_id(log: &Json) -> (r: bool)
    ensures
        r == is_correlated(*log),
{
    match log.get("fields") {
        Some(fields) => match fields {
            Json::Object(_) => fields_correlate(fields),
            Json::Text(raw) => if trim(raw.as_str()).as_str().is_empty() {
                false
            } else {
                match parse_json(raw.as_str()) {
                    Some(parsed) => fields_correlate(&parsed),
                    None => false,
                }
            },
            _ => false,
        },
        None => false,
    }
}

/// Whether an entry is of a pipeline.
pub open spec fn is_scoped(log: Json) -> bool {
    log.text_field("pipelineId"@) is Some
}

/// Whether an entry is of an external transcoder.
pub open spec fn is_transcoder(log: Json) -> bool {
    (log.text_field("target"@) matches Some(t) && contains(t, "external_transcoder"@)) || (
    log.text_field("message"@) matches Some(m) && contains(m, "[ext-transcoder]"@))
}

/// The type of the event of an entry.
pub fn log_event_type(log: &Json) -> (r: Option<&str>)
    ensures
        match r {
            Some(s) => log.text_field("eventType"@) == Some(s@),
            None => log.text_field("eventType"@) is None,
        },
{
    log.get_text("eventType")
}

fn from_transcoder(log: &Json) -> (r: bool)
    ensures
        r == is_transcoder(*log),
{
    let by_target: bool = match log.get_text("target") {
        Some(t) => contains_text(t, "external_transcoder"),
        None => false,
    };
    let by_message: bool = match log.get_text("message") {
        Some(m) => contains_text(m, "[ext-transcoder]"),
        None => false,
    };
    by_target || by_message
}

// ── The history of a run ─────────────────────────────────────────────────────

/// Whether some entry of a pipeline has an event of a type.
pub open spec fn has_event(logs: Seq<Json>, event_type: Seq<char>) -> bool {
    exists|i: int|
        0 <= i < logs.len() && is_scoped(#[trigger] logs[i]) && logs[i].has_text(
            "eventType"@,
            event_type,
        )
}

/// The types of event, of those expected, that no entry of a pipeline has.
pub open spec fn missing_events(logs: Seq<Json>, expected: Seq<Seq<char>>) -> Seq<Seq<char>>
    decreases expected.len(),
{
    if expected.len() == 0 {
        Seq::empty()
    } else if has_event(logs, expected.last()) {
        missing_events(logs, expected.drop_last())
    } else {
        missing_events(logs, expected.drop_last()).push(expected.last())
    }
}

/// How many entries are of a pipeline.
pub open spec fn scoped_count(logs: Seq<Json>) -> nat
    decreases logs.len(),
{
    if logs.len() == 0 {
        0
    } else {
        scoped_count(logs.drop_last()) + if is_scoped(logs.last()) {
            1nat
        } else {
            0nat
        }
    }
}

/// How many entries are of a pipeline and hold a correlation id.
pub open spec fn correlated_count(logs: Seq<Json>) -> nat
    decreases logs.len(),
{
    if logs.len() == 0 {
        0
    } else {
        correlated_count(logs.drop_last()) + if is_scoped(logs.last()) && is_correlated(
            logs.last(),
        ) {
            1nat
        } else {
            0nat
        }
    }
}

/// How many entries are of a pipeline and of an external transcoder.
pub open spec fn transcoder_count(logs: Seq<Json>) -> nat
    decreases logs.len(),
{
    if logs.len() == 0 {
        0
    } else {
        transcoder_count(logs.drop_last()) + if is_scoped(logs.last()) && is_transcoder(
            logs.last(),
        ) {
            1nat
        } else {
            0nat
        }
    }
}

/// Whether an entry of an external transcoder holds a correlation id.
pub open spec fn transcoder_correlated(logs: Seq<Json>) -> bool {
    exists|i: int|
        0 <= i < logs.len() && is_scoped(#[trigger] logs[i]) && is_transcoder(logs[i])
            && is_correlated(logs[i])
}

/// What the log of a run shows.
#[derive(Debug, Clone, Copy, PartialEq, Eq, Structural)]
pub struct HistoryReport {
    pub pipeline_logs: usize,
    pub correlated_logs: usize,
    pub transcoder_logs: usize,
    pub transcoder_correlated: bool,
}

/// Whether some entry of a pipeline has an event of a type.
pub fn logs_contain_event(logs: &Vec<Json>, event_type: &str) -> (r: bool)
    ensures
        r == has_event(logs@, event_type@),
{
    let mut i: usize = 0;
    while i < logs.len()
        invariant
            i <= logs@.len(),
            forall|k: int|
                0 <= k < i ==> !(is_scoped(#[trigger] logs@[k]) && logs@[k].has_text(
                    "eventType"@,
                    event_type@,
                )),
        decreases logs@.len() - i,
    {
        if logs[i].get_text("pipelineId").is_some() && logs[i].text_is("eventType", event_type) {
            return true;
        }
        i += 1;
    }
    false
}

fn missing_list(logs: &Vec<Json>, expected: &Vec<String>) -> (r: Vec<String>)
    ensures
        texts(r@) == missing_events(logs@, texts(expected@)),
{
    let ghost all = texts(expected@);
    let mut out: Vec<String> = Vec::new();
    let mut i: usize = 0;
    assert(all.take(0) =~= Seq::<Seq<char>>::empty());
    assert(texts(out@) =~= Seq::<Seq<char>>::empty());
    while i < expected.len()
        invariant
            i <= expected@.len(),
            all == texts(expected@),
            texts(out@) == missing_events(logs@, all.take(i as int)),
        decreases expected@.len() - i,
    {
        assert(all.take(i + 1).drop_last() =~= all.take(i as int));
        assert(all.take(i + 1).last() == expected@[i as int]@);
        if !logs_contain_event(logs, expected[i].as_str()) {
            let ghost before = out@;
            out.push(expected[i].clone());
            assert(texts(out@) =~= texts(before).push(expected@[i as int]@));
        }
        i += 1;
    }
    assert(all.take(all.len() as int) =~= all);
    out
}

fn history_counts(logs: &Vec<Json>) -> (r: HistoryReport)
    ensures
        r.pipeline_logs == scoped_count(logs@),
        r.correlated_logs == correlated_count(logs@),
        r.transcoder_logs == transcoder_count(logs@),
        r.transcoder_correlated == transcoder_correlated(logs@),
{
    let mut scoped: usize = 0;
    let mut correlated: usize = 0;
    let mut transcoder: usize = 0;
    let mut both: bool = false;
    let mut i: usize = 0;
    assert(logs@.take(0) =~= Seq::<Json>::empty());
    while i < logs.len()
        invariant
            i <= logs@.len(),
            scoped <= i,
            correlated <= i,
            transcoder <= i,
            scoped == scoped_count(logs@.take(i as int)),
            correlated == correlated_count(logs@.take(i as int)),
            transcoder == transcoder_count(logs@.take(i as int)),
            both == (exists|k: int|
                0 <= k < i && is_scoped(#[trigger] logs@[k]) && is_transcoder(logs@[k])
                    && is_correlated(logs@[k])),
        decreases logs@.len() - i,
    {
        assert(logs@.take(i + 1).drop_last() =~= logs@.take(i as int));
        if logs[i].get_text("pipelineId").is_some() {
            scoped += 1;
            let has_id: bool = log_has_correlation_id(&logs[i]);
            if has_id {
                correlated += 1;
            }
            if from_transcoder(&logs[i]) {
                transcoder += 1;
                if has_id {
                    both = true;
                    assert(is_scoped(logs@[i as int]));
                }
            }
        }
        i += 1;
    }
    assert(logs@.take(logs@.len() as int) =~= logs@);
    HistoryReport {
        pipeline_logs: scoped,
        correlated_logs: correlated,
        transcoder_logs: transcoder,
        transcoder_correlated: both,
    }
}

/// What the log of a run shows, or what it lacks: any entry of a pipeline, or an expected type of
/// event.
pub fn verify_live_history_contract(logs: &Vec<Json>, expected: &Vec<String>) -> (r: Result<
    HistoryReport,
    String,
>)
    ensures
        match r {
            Ok(report) => {
                &&& scoped_count(logs@) > 0
                &&& missing_events(logs@, texts(expected@)).len() == 0
                &&& report.pipeline_logs == scoped_count(logs@)
                &&& report.correlated_logs == correlated_count(logs@)
                &&& report.transcoder_logs == transcoder_count(logs@)
                &&& report.transcoder_correlated == transcoder_correlated(logs@)
            },
            Err(message) => if scoped_count(logs@) == 0 {
                message@ == "live history contract found no pipeline-scoped logs"@
            } else {
                missing_events(logs@, texts(expected@)).len() > 0 && message@
                    == "live history contract missing lifecycle events: "@ + joined(
                    missing_events(logs@, texts(expected@)),
                    ", "@,
                )
            },
        },
{
    let report: HistoryReport = history_counts(logs);
    if report.pipeline_logs == 0 {
        return Err("live history contract found no pipeline-scoped logs".to_string());
    }
    let missing: Vec<String> = missing_list(logs, expected);
    assert(texts(missing@).len() == missing@.len());
    if !missing.is_empty() {
        return Err(
            "live history contract missing lifecycle events: ".to_string().concat(
                join(&missing, ", ").as_str(),
            ),
        );
    }
    Ok(report)
}

// ── Laws ─────────────────────────────────────────────────────────────────────

/// Nothing is counted that is not of a pipeline.
pub proof fn counts_are_of_pipelines(logs: Seq<Json>)
    ensures
        correlated_count(logs) <= scoped_count(logs),
        transcoder_count(logs) <= scoped_count(logs),
        scoped_count(logs) <= logs.len(),
    decreases logs.len(),
{
    if logs.len() > 0 {
        counts_are_of_pipelines(logs.drop_last());
    }
}

/// An entry correlates where its fields tell an id that is not blank, under either of its names; the
/// fields are an object, or a text that holds one.
pub proof fn entries_correlate_by_their_ids(log: Json, fields: Json)
    ensures
        fields.text_field("correlation_id"@) is Some ==> (correlates(fields) <==> trimmed(
            fields.text_field("correlation_id"@)->0,
        ).len() > 0),
        fields.text_field("correlation_id"@) is None ==> (correlates(fields) <==> fields.text_field(
            "correlationId"@,
        ) is Some && trimmed(fields.text_field("correlationId"@)->0).len() > 0),
        log.field("fields"@) == Some(fields) && fields is Object ==> (is_correlated(log)
            <==> correlates(fields)),
        log.text_field("fields"@) is Some && trimmed(log.text_field("fields"@)->0).len() > 0 ==> (
        is_correlated(log) <==> json_in(log.text_field("fields"@)->0) is Some && correlates(
            json_in(log.text_field("fields"@)->0)->0,
        )),
        log.field("fields"@) is None ==> !is_correlated(log),
{
}

/// An entry is of a pipeline where it names one; it is of a transcoder where its target or its
/// message says so.
pub proof fn entries_tell_where_they_come_from(log: Json)
    ensures
        is_scoped(log) <==> log.text_field("pipelineId"@) is Some,
        is_transcoder(log) <==> (log.text_field("target"@) is Some && contains(
            log.text_field("target"@)->0,
            "external_transcoder"@,
        )) || (log.text_field("message"@) is Some && contains(
            log.text_field("message"@)->0,
            "[ext-transcoder]"@,
        )),
{
}

/// What is missing of a history are the expected events, in order, that no entry of a pipeline tells
/// of.
pub proof fn missing_events_are_those_not_told(
    logs: Seq<Json>,
    expected: Seq<Seq<char>>,
    event: Seq<char>,
)
    ensures
        missing_events(logs, expected).contains(event) <==> expected.contains(event) && !(exists|
            i: int,
        |
            0 <= i < logs.len() && (#[trigger] logs[i]).text_field("pipelineId"@) is Some
                && logs[i].text_field("eventType"@) == Some(event)),
        missing_events(logs, expected).len() <= expected.len(),
    decreases expected.len(),
{
    assert(has_event(logs, event) <==> exists|i: int|
        0 <= i < logs.len() && (#[trigger] logs[i]).text_field("pipelineId"@) is Some
            && logs[i].text_field("eventType"@) == Some(event)) by {
        if has_event(logs, event) {
            let i = choose|i: int|
                0 <= i < logs.len() && is_scoped(#[trigger] logs[i]) && logs[i].has_text(
                    "eventType"@,
                    event,
                );
            assert(logs[i].text_field("pipelineId"@) is Some);
        }
        if exists|i: int|
            0 <= i < logs.len() && (#[trigger] logs[i]).text_field("pipelineId"@) is Some
                && logs[i].text_field("eventType"@) == Some(event) {
            let i = choose|i: int|
                0 <= i < logs.len() && (#[trigger] logs[i]).text_field("pipelineId"@) is Some
                    && logs[i].text_field("eventType"@) == Some(event);
            assert(is_scoped(logs[i]));
        }
    }
    if expected.len() > 0 {
        let front = expected.drop_last();
        missing_events_are_those_not_told(logs, front, event);
        let (m, f) = (missing_events(logs, expected), missing_events(logs, front));
        if f.contains(event) {
            let i = f.index_of(event);
            assert(m[i] == event);
        }
        if m.contains(event) {
            let i = m.index_of(event);
            if i < f.len() {
                assert(f[i] == event);
            }
        }
        if front.contains(event) {
            let i = front.index_of(event);
            assert(expected[i] == event);
        }
        if expected.contains(event) {
            let i = expected.index_of(event);
            if i < front.len() {
                assert(front[i] == event);
            } else if !has_event(logs, event) {
                assert(m[m.len() - 1] == event);
            }
        }
        assert(expected[expected.len() - 1] == expected.last());
    }
}

/// Each entry counts where it is of a pipeline: by itself, where it correlates, and where it is of a
/// transcoder.
pub proof fn entries_are_counted_one_by_one(logs: Seq<Json>, log: Json)
    ensures
        scoped_count(logs.push(log)) == scoped_count(logs) + (if log.text_field("pipelineId"@)
            is Some {
            1int
        } else {
            0
        }),
        correlated_count(logs.push(log)) == correlated_count(logs) + (if log.text_field(
            "pipelineId"@,
        ) is Some && is_correlated(log) {
            1int
        } else {
            0
        }),
        transcoder_count(logs.push(log)) == transcoder_count(logs) + (if log.text_field(
            "pipelineId"@,
        ) is Some && is_transcoder(log) {
            1int
        } else {
            0
        }),
{
    assert(logs.push(log).drop_last() =~= logs);
}

} // verus!
