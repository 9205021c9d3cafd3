//! What a scenario waits for, and what it says when that does not come in time.

use vstd::prelude::*;
use vstd::string::*;

use crate::harness::status::{inner, input_in, output_in};
use crate::json::Json;
use crate::number::{decimal, decimal_text};
use crate::text::{contains, contains_text, join, joined, texts};

verus! {

// ── Patience ─────────────────────────────────────────────────────────────────

/// How often something is tried, and how long the pause is after each try that failed.
#[derive(Debug, Clone, Copy, PartialEq, Eq, Structural)]
pub struct Tries {
    pub attempts: u64,
    pub pause_secs: u64,
}

/// How long to wait before asking again whether an input is live, in milliseconds.
pub const LIVE_POLL_MS: u64 = 1_000;

/// The same of an input that is to go off, and of a recording, a preview, a file ingest, a playlist
/// and a transcoder that is to be gone.
pub const STATE_POLL_MS: u64 = 500;

/// The same of media, of uploads, and of a transcoder that is to work.
pub const MEDIA_POLL_MS: u64 = 250;

/// The same of outputs that are to make progress.
pub const PROGRESS_POLL_MS: u64 = 500;

/// The same of outputs that are to stop.
pub const STOPPED_POLL_MS: u64 = 1_000;

/// What comes of looking once more.
#[derive(Debug, Clone, Copy, PartialEq, Eq, Structural)]
pub enum Look {
    /// It is there.
    Done,
    /// It is not there, and the time is over.
    TimedOut,
    /// Wait a little and look again.
    Again,
}

/// What comes of looking once.
pub open spec fn look_of(found: bool, expired: bool) -> Look {
    if found {
        Look::Done
    } else if expired {
        Look::TimedOut
    } else {
        Look::Again
    }
}

/// What comes of looking once: what is there counts, even when the time is over.
pub fn look(found: bool, expired: bool) -> (r: Look)
    ensures
        r == look_of(found, expired),
        r == (if found {
            Look::Done
        } else if expired {
            Look::TimedOut
        } else {
            Look::Again
        }),
{
    if found {
        Look::Done
    } else if expired {
        Look::TimedOut
    } else {
        Look::Again
    }
}

/// A number of a value, or zero.
pub open spec fn count_in(value: Json, name: Seq<char>) -> u64 {
    match value.u64_field(name) {
        Some(n) => n,
        None => 0,
    }
}

pub fn count_of(value: &Json, name: &str) -> (r: u64)
    ensures
        r == count_in(*value, name@),
{
    match value.get_u64(name) {
        Some(n) => n,
        None => 0,
    }
}

/// A flag of a value; one that is missing is not set.
pub fn flag_of(value: &Json, name: &str) -> (r: bool)
    ensures
        r == (value.bool_field(name@) == Some(true)),
{
    match value.get_bool(name) {
        Some(b) => b,
        None => false,
    }
}

// ── Inputs ───────────────────────────────────────────────────────────────────

/// Whether an input is on and has received something.
pub open spec fn is_live(input: Json) -> bool {
    input.has_text("status"@, "on"@) && count_in(input, "bytesReceived"@) > 0
}

/// Whether a pipeline's input has a video and at least one audio track.
pub open spec fn has_media(input: Json) -> bool {
    !input.lacks("video"@) && (input.list_field("audioTracks"@) matches Some(tracks)
        && tracks.len() > 0)
}

fn input_live(input: &Json) -> (r: bool)
    ensures
        r == is_live(*input),
{
    input.text_is("status", "on") && count_of(input, "bytesReceived") > 0
}

/// Whether the health shows that a pipeline receives something.
pub fn check_input_live(health: &Json, pipeline: &str) -> (r: bool)
    ensures
        r == is_live(input_in(Some(*health), pipeline@)),
{
    let null: Json = Json::Null;
    let pipelines: &Json = inner(health, "pipelines", &null);
    input_live(inner(inner(pipelines, pipeline, &null), "input", &null))
}

/// Whether a pipeline receives something, and its media are known.
pub fn check_media_ready(snapshot: &Json) -> (r: bool)
    ensures
        r == (is_live(snapshot.field_or_null("input"@)) && has_media(
            snapshot.field_or_null("input"@),
        )),
{
    let null: Json = Json::Null;
    let input: &Json = inner(snapshot, "input", &null);
    let has_audio: bool = match input.get_list("audioTracks") {
        Some(tracks) => tracks.len() > 0,
        None => false,
    };
    input_live(input) && !input.is_absent("video") && has_audio
}

/// Whether the health says that a pipeline's input is off.
pub fn check_input_off(health: &Json, pipeline: &str) -> (r: bool)
    ensures
        r == input_in(Some(*health), pipeline@).has_text("status"@, "off"@),
{
    let null: Json = Json::Null;
    let pipelines: &Json = inner(health, "pipelines", &null);
    inner(inner(pipelines, pipeline, &null), "input", &null).text_is("status", "off")
}

/// What is said of an input that does not go live.
pub fn not_live_message(pipeline: &str, secs: u64) -> (r: String)
    ensures
        r@ == pipeline@ + ": ingest did not go live within "@ + decimal(secs as nat) + "s"@,
{
    pipeline.to_string().concat(": ingest did not go live within ").concat(
        decimal_text(secs).as_str(),
    ).concat("s")
}

/// What is said of an input that does not go off.
pub fn not_off_message(pipeline: &str, secs: u64) -> (r: String)
    ensures
        r@ == pipeline@ + ": ingest did not go off within "@ + decimal(secs as nat) + "s"@,
{
    pipeline.to_string().concat(": ingest did not go off within ").concat(
        decimal_text(secs).as_str(),
    ).concat("s")
}

/// What is said of an input whose media stay unknown.
pub fn no_media_message(pipeline: &str, secs: u64, last_snapshot: &str) -> (r: String)
    ensures
        r@ == pipeline@ + ": ingest went live but media probe was incomplete within "@ + decimal(
            secs as nat,
        ) + "s; last snapshot="@ + last_snapshot@,
{
    pipeline.to_string().concat(
        ": ingest went live but media probe was incomplete within ",
    ).concat(decimal_text(secs).as_str()).concat("s; last snapshot=").concat(last_snapshot)
}

// ── Recordings, previews, files ──────────────────────────────────────────────

/// Whether a pipeline's recording is enabled, and whether it is going on.
#[derive(Debug, Clone, Copy, PartialEq, Eq, Structural)]
pub struct RecordingState {
    pub enabled: bool,
    pub active: bool,
}

/// What the health says of a pipeline's recording.
pub fn recording_state(health: &Json, pipeline: &str) -> (r: RecordingState)
    ensures
        ({
            let recording = health.field_or_null("pipelines"@).field_or_null(
                pipeline@,
            ).field_or_null("recording"@);
            r.enabled == (recording.bool_field("enabled"@) == Some(true)) && r.active == (
            recording.bool_field("active"@) == Some(true))
        }),
{
    let null: Json = Json::Null;
    let pipelines: &Json = inner(health, "pipelines", &null);
    let recording: &Json = inner(inner(pipelines, pipeline, &null), "recording", &null);
    RecordingState { enabled: flag_of(recording, "enabled"), active: flag_of(recording, "active") }
}

/// Whether the health says that a pipeline's preview is made.
pub fn preview_active(health: &Json, pipeline: &str) -> (r: bool)
    ensures
        r == (health.field_or_null("pipelines"@).field_or_null(pipeline@).field_or_null(
            "hlsPreview"@,
        ).bool_field("active"@) == Some(true)),
{
    let null: Json = Json::Null;
    let pipelines: &Json = inner(health, "pipelines", &null);
    flag_of(inner(inner(pipelines, pipeline, &null), "hlsPreview", &null), "active")
}

pub open spec fn flag_word(b: bool) -> Seq<char> {
    if b {
        "true"@
    } else {
        "false"@
    }
}

pub fn flag_text(b: bool) -> (r: &'static str)
    ensures
        r@ == flag_word(b),
{
    if b {
        "true"
    } else {
        "false"
    }
}

/// What is said of a recording that is not as expected.
pub fn recording_message(pipeline: &str, expected: bool, state: RecordingState) -> (r: String)
    ensures
        r@ == "recording state for pipeline "@ + pipeline@ + " did not reach active="@ + flag_word(
            expected,
        ) + "; enabled="@ + flag_word(state.enabled) + " active="@ + flag_word(state.active),
{
    "recording state for pipeline ".to_string().concat(pipeline).concat(
        " did not reach active=",
    ).concat(flag_text(expected)).concat("; enabled=").concat(flag_text(state.enabled)).concat(
        " active=",
    ).concat(flag_text(state.active))
}

/// What is said of a preview that did not become, or stop being, active; `preview` is what was told
/// of it last.
pub fn preview_message(pipeline: &str, expected: bool, preview: &str) -> (r: String)
    ensures
        r@ == "HLS preview state for pipeline "@ + pipeline@ + " did not reach active="@
            + flag_word(expected) + "; preview="@ + preview@,
{
    "HLS preview state for pipeline ".to_string().concat(pipeline).concat(
        " did not reach active=",
    ).concat(flag_text(expected)).concat("; preview=").concat(preview)
}

/// What is said of a file ingest that did not start or stop running; `ingest` is what was told of
/// it last.
pub fn file_ingest_message(pipeline: &str, expected: bool, ingest: &str) -> (r: String)
    ensures
        r@ == "file ingest state for pipeline "@ + pipeline@ + " did not reach running="@
            + flag_word(expected) + "; ingest="@ + ingest@,
{
    "file ingest state for pipeline ".to_string().concat(pipeline).concat(
        " did not reach running=",
    ).concat(flag_text(expected)).concat("; ingest=").concat(ingest)
}

/// What is said of a playlist that was not served in time; `status` and `body` are what the server
/// answered last.
pub fn playlist_message(pipeline: &str, secs: u64, status: &str, body: &str) -> (r: String)
    ensures
        r@ == "HLS playlist for pipeline "@ + pipeline@ + " did not become ready within "@ + decimal(
            secs as nat,
        ) + "s; last_status="@ + status@ + " body="@ + body@,
{
    "HLS playlist for pipeline ".to_string().concat(pipeline).concat(
        " did not become ready within ",
    ).concat(decimal_text(secs).as_str()).concat("s; last_status=").concat(status).concat(
        " body=",
    ).concat(body)
}

/// Whether a playlist has been served.
pub fn playlist_ready(success: bool, body: &str) -> (r: bool)
    ensures
        r == (success && contains(body@, "#EXTM3U"@)),
{
    success && contains_text(body, "#EXTM3U")
}

// ── Outputs ──────────────────────────────────────────────────────────────────

/// Whether an output has sent anything.
pub open spec fn has_sent(entry: Json) -> bool {
    let metrics = entry.field_or_null("metrics"@);
    count_in(entry, "bytesOut"@) > 0 || count_in(metrics, "bytesOut"@) > 0 || count_in(
        metrics,
        "packetsOut"@,
    ) > 0
}

/// A text of a value, or another one.
pub open spec fn text_or(value: Json, name: Seq<char>, other: Seq<char>) -> Seq<char> {
    match value.text_field(name) {
        Some(t) => t,
        None => other,
    }
}

fn text_of_field(value: &Json, name: &str, other: &str) -> (r: String)
    ensures
        r@ == text_or(*value, name@, other@),
{
    match value.get_text(name) {
        Some(t) => t.to_string(),
        None => other.to_string(),
    }
}

/// What is said of an output that has sent nothing.
pub open spec fn stalled_text(output: Seq<char>, entry: Json) -> Seq<char> {
    let metrics = entry.field_or_null("metrics"@);
    output + "[phase="@ + text_or(entry, "phase"@, "unknown"@) + ",state="@ + text_or(
        entry,
        "state"@,
        "unknown"@,
    ) + ",bytesOut="@ + decimal(count_in(entry, "bytesOut"@) as nat) + ",metricsBytesOut="@
        + decimal(count_in(metrics, "bytesOut"@) as nat) + ",packetsOut="@ + decimal(
        count_in(metrics, "packetsOut"@) as nat,
    ) + ",lastError="@ + text_or(entry, "lastError"@, ""@) + "]"@
}

/// What is said of the outputs that have sent nothing.
pub open spec fn stalled_texts(health: Json, pipeline: Seq<char>, outputs: Seq<Seq<char>>) -> Seq<
    Seq<char>,
>
    decreases outputs.len(),
{
    if outputs.len() == 0 {
        Seq::empty()
    } else {
        let before = stalled_texts(health, pipeline, outputs.drop_last());
        let entry = output_in(health, pipeline, outputs.last());
        if has_sent(entry) {
            before
        } else {
            before.push(stalled_text(outputs.last(), entry))
        }
    }
}

fn stalled_message(output: &str, entry: &Json, metrics: &Json) -> (r: String)
    requires
        *metrics == entry.field_or_null("metrics"@),
    ensures
        r@ == stalled_text(output@, *entry),
{
    output.to_string().concat("[phase=").concat(
        text_of_field(entry, "phase", "unknown").as_str(),
    ).concat(",state=").concat(text_of_field(entry, "state", "unknown").as_str()).concat(
        ",bytesOut=",
    ).concat(decimal_text(count_of(entry, "bytesOut")).as_str()).concat(",metricsBytesOut=").concat(
        decimal_text(count_of(metrics, "bytesOut")).as_str(),
    ).concat(",packetsOut=").concat(decimal_text(count_of(metrics, "packetsOut")).as_str()).concat(
        ",lastError=",
    ).concat(text_of_field(entry, "lastError", "").as_str()).concat("]")
}

/// Which of the outputs have sent nothing yet, each with what the health says of it. All of them
/// make progress when the list is empty.
pub fn stalled_outputs(health: &Json, pipeline: &str, outputs: &Vec<String>) -> (r: Vec<String>)
    ensures
        texts(r@) == stalled_texts(*health, pipeline@, texts(outputs@)),
        r@.len() <= outputs@.len(),
{
    let null: Json = Json::Null;
    let pipelines: &Json = inner(health, "pipelines", &null);
    let entries: &Json = inner(inner(pipelines, pipeline, &null), "outputs", &null);
    let mut out: Vec<String> = Vec::new();
    let mut i: usize = 0;
    let ghost all = texts(outputs@);
    assert(all.take(0) =~= Seq::<Seq<char>>::empty());
    assert(texts(out@) =~= Seq::<Seq<char>>::empty());
    while i < outputs.len()
        invariant
            i <= outputs@.len(),
            null == Json::Null,
            *entries == health.field_or_null("pipelines"@).field_or_null(pipeline@).field_or_null(
                "outputs"@,
            ),
            all == texts(outputs@),
            out@.len() <= i,
            texts(out@) == stalled_texts(*health, pipeline@, all.take(i as int)),
        decreases outputs@.len() - i,
    {
        assert(all.take(i + 1).drop_last() =~= all.take(i as int));
        assert(all.take(i + 1).last() == outputs@[i as int]@);
        let entry: &Json = inner(entries, outputs[i].as_str(), &null);
        let metrics: &Json = inner(entry, "metrics", &null);
        if !(count_of(entry, "bytesOut") > 0 || count_of(metrics, "bytesOut") > 0 || count_of(
            metrics,
            "packetsOut",
        ) > 0) {
            let ghost before = out@;
            let message: String = stalled_message(outputs[i].as_str(), entry, metrics);
            let ghost said = message@;
            out.push(message);
            assert(texts(out@) =~= texts(before).push(said));
        }
        i += 1;
    }
    assert(all.take(outputs@.len() as int) =~= all);
    out
}

/// What is said of outputs that make no progress.
pub fn no_progress_message(pipeline: &str, outputs: usize, stalled: &Vec<String>) -> (r: String)
    requires
        stalled@.len() <= outputs,
    ensures
        r@ == "outputs did not make progress for pipeline "@ + pipeline@ + ": "@ + decimal(
            (outputs - stalled@.len()) as nat,
        ) + "/"@ + decimal(outputs as nat) + "; stalled="@ + joined(texts(stalled@), ", "@),
{
    let progressed: usize = outputs - stalled.len();
    "outputs did not make progress for pipeline ".to_string().concat(pipeline).concat(": ").concat(
        decimal_text(progressed as u64).as_str(),
    ).concat("/").concat(decimal_text(outputs as u64).as_str()).concat("; stalled=").concat(
        join(stalled, ", ").as_str(),
    )
}

/// Whether a job is the one of an output.
pub open spec fn is_job_of(job: Json, pipeline: Seq<char>, output: Seq<char>) -> bool {
    job.has_text("pipelineId"@, pipeline) && job.has_text("outputId"@, output)
}

/// The first of the jobs that is the one of an output.
pub open spec fn job_of(jobs: Seq<Json>, pipeline: Seq<char>, output: Seq<char>) -> Option<Json>
    decreases jobs.len(),
{
    if jobs.len() == 0 {
        None
    } else if is_job_of(jobs[0], pipeline, output) {
        Some(jobs[0])
    } else {
        job_of(jobs.skip(1), pipeline, output)
    }
}

/// Whether an output counts as stopped: no job tells of another status.
pub open spec fn is_stopped(settings: Json, pipeline: Seq<char>, output: Seq<char>) -> bool {
    match settings.list_field("jobs"@) {
        None => true,
        Some(jobs) => match job_of(jobs, pipeline, output) {
            None => true,
            Some(job) => match job.text_field("status"@) {
                None => true,
                Some(status) => status == "stopped"@,
            },
        },
    }
}

fn find_job<'a>(jobs: &'a Vec<Json>, pipeline: &str, output: &str) -> (r: Option<&'a Json>)
    ensures
        match r {
            Some(job) => job_of(jobs@, pipeline@, output@) == Some(*job),
            None => job_of(jobs@, pipeline@, output@) is None,
        },
{
    let mut i: usize = 0;
    assert(jobs@.skip(0) =~= jobs@);
    while i < jobs.len()
        invariant
            i <= jobs@.len(),
            job_of(jobs@, pipeline@, output@) == job_of(
                jobs@.skip(i as int),
                pipeline@,
                output@,
            ),
        decreases jobs@.len() - i,
    {
        assert(jobs@.skip(i as int).skip(1) =~= jobs@.skip(i + 1));
        if jobs[i].text_is("pipelineId", pipeline) && jobs[i].text_is("outputId", output) {
            return Some(&jobs[i]);
        }
        i += 1;
    }
    None
}

fn output_stopped(settings: &Json, pipeline: &str, output: &str) -> (r: bool)
    ensures
        r == is_stopped(*settings, pipeline@, output@),
{
    match settings.get_list("jobs") {
        None => true,
        Some(jobs) => match find_job(jobs, pipeline, output) {
            None => true,
            Some(job) => match job.get_text("status") {
                None => true,
                Some(status) => crate::text::same_text(status, "stopped"),
            },
        },
    }
}

/// Whether all the outputs count as stopped.
pub fn all_outputs_stopped(settings: &Json, pipeline: &str, outputs: &Vec<String>) -> (r: bool)
    ensures
        r == (forall|i: int|
            0 <= i < outputs@.len() ==> is_stopped(*settings, pipeline@, #[trigger] outputs@[i]@)),
{
    let mut i: usize = 0;
    while i < outputs.len()
        invariant
            i <= outputs@.len(),
            forall|k: int|
                0 <= k < i ==> is_stopped(*settings, pipeline@, #[trigger] outputs@[k]@),
        decreases outputs@.len() - i,
    {
        if !output_stopped(settings, pipeline, outputs[i].as_str()) {
            assert(!is_stopped(*settings, pipeline@, outputs@[i as int]@));
            return false;
        }
        i += 1;
    }
    true
}

// ── Answers of the server ────────────────────────────────────────────────────

/// The id under an answer's field of this name.
pub open spec fn created_id(answer: Json, what: Seq<char>) -> Option<Seq<char>> {
    answer.field_or_null(what).text_field("id"@)
}

/// The id of a pipeline that was created.
pub fn created_pipeline_id(answer: &Json) -> (r: Result<String, &'static str>)
    ensures
        match created_id(*answer, "pipeline"@) {
            Some(id) => r is Ok && r->Ok_0@ == id,
            None => r is Err && r->Err_0@ == "pipeline create response missing pipeline.id"@,
        },
{
    let null: Json = Json::Null;
    match inner(answer, "pipeline", &null).get_text("id") {
        Some(id) => Ok(id.to_string()),
        None => Err("pipeline create response missing pipeline.id"),
    }
}

/// The id of an output that was created.
pub fn created_output_id(answer: &Json) -> (r: Result<String, &'static str>)
    ensures
        match created_id(*answer, "output"@) {
            Some(id) => r is Ok && r->Ok_0@ == id,
            None => r is Err && r->Err_0@ == "output create response missing output.id"@,
        },
{
    let null: Json = Json::Null;
    match inner(answer, "output", &null).get_text("id") {
        Some(id) => Ok(id.to_string()),
        None => Err("output create response missing output.id"),
    }
}

/// Whether a list of the server's holds an item of this id.
pub open spec fn lists_id(items: Seq<Json>, id: Seq<char>) -> bool {
    exists|i: int| 0 <= i < items.len() && (#[trigger] items[i]).has_text("id"@, id)
}

fn list_has_id(items: &Vec<Json>, id: &str) -> (r: bool)
    ensures
        r == lists_id(items@, id@),
{
    let mut i: usize = 0;
    while i < items.len()
        invariant
            i <= items@.len(),
            forall|k: int| 0 <= k < i ==> !(#[trigger] items@[k]).has_text("id"@, id@),
        decreases items@.len() - i,
    {
        if items[i].text_is("id", id) {
            return true;
        }
        i += 1;
    }
    false
}

/// Whether the answer lists the pipeline; `None` where it holds no list.
pub fn lists_pipeline(answer: &Json, id: &str) -> (r: Option<bool>)
    ensures
        r == match answer.list_field("pipelines"@) {
            Some(items) => Some(lists_id(items, id@)),
            None => None::<bool>,
        },
{
    match answer.get_list("pipelines") {
        Some(items) => Some(list_has_id(items, id)),
        None => None,
    }
}

/// Whether the health knows of a pipeline.
pub fn health_knows(health: &Json, pipeline: &str) -> (r: bool)
    ensures
        r == !health.field_or_null("pipelines"@).lacks(pipeline@),
{
    let null: Json = Json::Null;
    !inner(health, "pipelines", &null).is_absent(pipeline)
}

/// Whether the listed pipeline of this id takes in a stream. An answer whose pipelines are no list
/// tells of none.
pub open spec fn takes_in(items: Seq<Json>, id: Seq<char>) -> bool
    decreases items.len(),
{
    if items.len() == 0 {
        false
    } else if items[0].has_text("id"@, id) {
        items[0].bool_field("activeIngest"@) == Some(true)
    } else {
        takes_in(items.skip(1), id)
    }
}

/// Whether an answer of the health shows that the pipeline of this id takes in a stream.
pub fn pipeline_takes_in(health: &Json, id: &str) -> (r: bool)
    ensures
        r == match health.list_field("pipelines"@) {
            Some(items) => takes_in(items, id@),
            None => false,
        },
{
    match health.get_list("pipelines") {
        None => false,
        Some(items) => {
            let mut i: usize = 0;
            assert(items@.skip(0) =~= items@);
            while i < items.len()
                invariant
                    i <= items@.len(),
                    health.list_field("pipelines"@) == Some(items@),
                    takes_in(items@, id@) == takes_in(items@.skip(i as int), id@),
                decreases items@.len() - i,
            {
                assert(items@.skip(i as int).skip(1) =~= items@.skip(i + 1));
                if items[i].text_is("id", id) {
                    return flag_of(&items[i], "activeIngest");
                }
                i += 1;
            }
            false
        },
    }
}

// ── Laws ─────────────────────────────────────────────────────────────────────

/// All outputs make progress exactly when none of them is named as stalled.
pub proof fn nothing_stalled_iff_all_sent(health: Json, pipeline: Seq<char>, outputs: Seq<Seq<char>>)
    ensures
        stalled_texts(health, pipeline, outputs).len() == 0 <==> forall|i: int|
            0 <= i < outputs.len() ==> has_sent(output_in(health, pipeline, #[trigger] outputs[i])),
    decreases outputs.len(),
{
    if outputs.len() > 0 {
        let rest = outputs.drop_last();
        nothing_stalled_iff_all_sent(health, pipeline, rest);
        if stalled_texts(health, pipeline, outputs).len() == 0 {
            assert forall|i: int| 0 <= i < outputs.len() implies has_sent(
                output_in(health, pipeline, #[trigger] outputs[i]),
            ) by {
                if i < rest.len() {
                    assert(rest[i] == outputs[i]);
                }
            }
        } else if forall|i: int|
            0 <= i < outputs.len() ==> has_sent(output_in(health, pipeline, #[trigger] outputs[i])) {
            assert(outputs.last() == outputs[outputs.len() - 1]);
            assert forall|i: int| 0 <= i < rest.len() implies has_sent(
                output_in(health, pipeline, #[trigger] rest[i]),
            ) by {
                assert(rest[i] == outputs[i]);
            }
        }
    }
}

/// Outputs of which the server knows no job count as stopped.
pub proof fn unknown_outputs_are_stopped(settings: Json, pipeline: Seq<char>, output: Seq<char>)
    requires
        settings.list_field("jobs"@) is None,
    ensures
        is_stopped(settings, pipeline, output),
{
}

/// An input is never live and off at the same time.
pub proof fn live_is_not_off(input: Json)
    ensures
        !(is_live(input) && input.has_text("status"@, "off"@)),
{
    reveal_strlit("on");
    reveal_strlit("off");
    assert("on"@.len() != "off"@.len());
}

/// An input is live exactly when the server says that it is on and that it has received something.
pub proof fn live_inputs_are_on_and_receive(input: Json)
    ensures
        is_live(input) <==> input.text_field("status"@) == Some("on"@) && input.u64_field(
            "bytesReceived"@,
        ) is Some && input.u64_field("bytesReceived"@)->0 > 0,
{
}

/// The media of an input are known exactly when its video is told and at least one audio track is.
pub proof fn media_are_video_and_audio(input: Json)
    ensures
        has_media(input) <==> input.field("video"@) is Some && input.field("video"@) != Some(
            Json::Null,
        ) && input.list_field("audioTracks"@) is Some && input.list_field("audioTracks"@)->0.len()
            > 0,
{
}

/// An output has sent something exactly when one of its counters says so: its own bytes, or the
/// bytes or packets among its metrics.
pub proof fn one_counter_is_enough(entry: Json)
    ensures
        has_sent(entry) <==> {
            let metrics = entry.field_or_null("metrics"@);
            ||| entry.u64_field("bytesOut"@) is Some && entry.u64_field("bytesOut"@)->0 > 0
            ||| metrics.u64_field("bytesOut"@) is Some && metrics.u64_field("bytesOut"@)->0 > 0
            ||| metrics.u64_field("packetsOut"@) is Some && metrics.u64_field("packetsOut"@)->0 > 0
        },
{
}

/// An output that has a job is stopped exactly when the first of its jobs tells no status but
/// `stopped`; one without a job is stopped.
pub proof fn outputs_are_stopped_by_their_jobs(
    settings: Json,
    jobs: Seq<Json>,
    pipeline: Seq<char>,
    output: Seq<char>,
    at: int,
)
    requires
        settings.list_field("jobs"@) == Some(jobs),
        0 <= at <= jobs.len(),
        forall|i: int|
            0 <= i < at ==> !((#[trigger] jobs[i]).text_field("pipelineId"@) == Some(pipeline)
                && jobs[i].text_field("outputId"@) == Some(output)),
        at < jobs.len() ==> jobs[at].text_field("pipelineId"@) == Some(pipeline)
            && jobs[at].text_field("outputId"@) == Some(output),
    ensures
        at == jobs.len() ==> is_stopped(settings, pipeline, output),
        at < jobs.len() ==> (is_stopped(settings, pipeline, output) <==> jobs[at].text_field(
            "status"@,
        ) is None || jobs[at].text_field("status"@) == Some("stopped"@)),
{
    lemma_first_job(jobs, pipeline, output, at);
}

proof fn lemma_first_job(jobs: Seq<Json>, pipeline: Seq<char>, output: Seq<char>, at: int)
    requires
        0 <= at <= jobs.len(),
        forall|i: int| 0 <= i < at ==> !is_job_of(#[trigger] jobs[i], pipeline, output),
        at < jobs.len() ==> is_job_of(jobs[at], pipeline, output),
    ensures
        job_of(jobs, pipeline, output) == if at < jobs.len() {
            Some(jobs[at])
        } else {
            None
        },
    decreases at,
{
    if at > 0 {
        assert(!is_job_of(jobs[0], pipeline, output));
        assert forall|i: int| 0 <= i < at - 1 implies !is_job_of(
            #[trigger] jobs.skip(1)[i],
            pipeline,
            output,
        ) by {
            assert(jobs.skip(1)[i] == jobs[i + 1]);
        }
        lemma_first_job(jobs.skip(1), pipeline, output, at - 1);
    }
}

/// A pipeline takes something in exactly when the first entry of its id says so.
pub proof fn first_entry_tells_of_the_ingest(items: Seq<Json>, id: Seq<char>, at: int)
    requires
        0 <= at < items.len(),
        items[at].text_field("id"@) == Some(id),
        forall|i: int| 0 <= i < at ==> (#[trigger] items[i]).text_field("id"@) != Some(id),
    ensures
        takes_in(items, id) <==> items[at].bool_field("activeIngest"@) == Some(true),
    decreases at,
{
    if at > 0 {
        assert(items[0].text_field("id"@) != Some(id));
        assert forall|i: int| 0 <= i < at - 1 implies (#[trigger] items.skip(1)[i]).text_field(
            "id"@,
        ) != Some(id) by {
            assert(items.skip(1)[i] == items[i + 1]);
        }
        first_entry_tells_of_the_ingest(items.skip(1), id, at - 1);
    }
}

/// The id of what was created is the one that the answer gives under its name, and outputs are told
/// apart by pipeline and id.
pub proof fn created_ids_are_told(answer: Json, what: Seq<char>, id: Seq<char>)
    requires
        answer.field(what) is Some,
        answer.field(what)->0.text_field("id"@) == Some(id),
    ensures
        created_id(answer, what) == Some(id),
{
}

/// What is there ends a wait, however late; what is not ends it only when the time is over.
pub proof fn waits_end_with_what_they_wait_for(found: bool, expired: bool)
    ensures
        look_of(found, expired) == Look::Done <==> found,
        look_of(found, expired) == Look::TimedOut <==> !found && expired,
        look_of(found, expired) == Look::Again <==> !found && !expired,
{
}

} // verus!
