//! What the server says of its outputs and inputs, and how a scenario reads it.

use vstd::prelude::*;

use crate::json::Json;

verus! {

/// How long a lost publisher counts as still there, in milliseconds.
pub const GRACE_MS: u64 = 5_000;

// ── Finding the parts ────────────────────────────────────────────────────────

/// The input of a pipeline in a report of the server's health; null where there is none.
pub open spec fn input_in(health: Option<Json>, pipeline: Seq<char>) -> Json {
    match health {
        Some(h) => h.field_or_null("pipelines"@).field_or_null(pipeline).field_or_null("input"@),
        None => Json::Null,
    }
}

/// An output in a report of the server's health; null where there is none.
pub open spec fn output_in(health: Json, pipeline: Seq<char>, output: Seq<char>) -> Json {
    health.field_or_null("pipelines"@).field_or_null(pipeline).field_or_null(
        "outputs"@,
    ).field_or_null(output)
}

/// The field of a name, or the given null.
pub fn inner<'a>(j: &'a Json, name: &str, null: &'a Json) -> (r: &'a Json)
    requires
        *null == Json::Null,
    ensures
        *r == j.field_or_null(name@),
{
    match j.get(name) {
        Some(f) => f,
        None => null,
    }
}

// ── Outputs ──────────────────────────────────────────────────────────────────

/// Whether an output has the given status.
pub open spec fn status_is(status: Option<Json>, word: Seq<char>) -> bool {
    status matches Some(s) && s.has_text("status"@, word)
}

/// Whether an output says that it is being retried.
pub open spec fn retry_flag(status: Option<Json>) -> bool {
    status matches Some(s) && s.bool_field("retrying"@) == Some(true)
}

/// Whether a value says of an error.
pub open spec fn tells_error(s: Json) -> bool {
    s.text_field("lastError"@) matches Some(message) && message.len() > 0
}

/// Whether an output tells of an error.
pub open spec fn has_error(status: Option<Json>) -> bool {
    status matches Some(s) && tells_error(s)
}

/// Whether an output is shown as being retried, in word and in flag.
pub open spec fn shows_retry(s: Json) -> bool {
    s.has_text("status"@, "retrying"@) && s.bool_field("retrying"@) == Some(true)
}

/// A text of a status, or `unknown`.
pub open spec fn known_text(s: Json, name: Seq<char>) -> Seq<char> {
    match s.text_field(name) {
        Some(t) => t,
        None => "unknown"@,
    }
}

pub fn check_status(status: &Option<Json>, word: &str) -> (r: bool)
    ensures
        r == status_is(*status, word@),
{
    match status {
        Some(s) => s.text_is("status", word),
        None => false,
    }
}

pub fn check_retry_flag(status: &Option<Json>) -> (r: bool)
    ensures
        r == retry_flag(*status),
{
    match status {
        Some(s) => match s.get_bool("retrying") {
            Some(b) => b,
            None => false,
        },
        None => false,
    }
}

pub fn check_error(s: &Json) -> (r: bool)
    ensures
        r == tells_error(*s),
{
    match s.get_text("lastError") {
        Some(message) => !message.is_empty(),
        None => false,
    }
}

pub fn check_has_error(status: &Option<Json>) -> (r: bool)
    ensures
        r == has_error(*status),
{
    match status {
        Some(s) => check_error(s),
        None => false,
    }
}

pub fn check_shows_retry(s: &Json) -> (r: bool)
    ensures
        r == shows_retry(*s),
{
    let flag: bool = match s.get_bool("retrying") {
        Some(b) => b,
        None => false,
    };
    s.text_is("status", "retrying") && flag
}

/// Whether the server's health shows an output as being retried.
pub fn health_shows_retry(health: &Json, pipeline: &str, output: &str) -> (r: bool)
    ensures
        r == shows_retry(output_in(*health, pipeline@, output@)),
{
    let null: Json = Json::Null;
    let pipelines: &Json = inner(health, "pipelines", &null);
    let one: &Json = inner(pipelines, pipeline, &null);
    let outputs: &Json = inner(one, "outputs", &null);
    check_shows_retry(inner(outputs, output, &null))
}

/// Whether the server's health gives an output the status `retrying`.
pub fn health_says_retrying(health: &Json, pipeline: &str, output: &str) -> (r: bool)
    ensures
        r == output_in(*health, pipeline@, output@).has_text("status"@, "retrying"@),
{
    let null: Json = Json::Null;
    let pipelines: &Json = inner(health, "pipelines", &null);
    let one: &Json = inner(pipelines, pipeline, &null);
    let outputs: &Json = inner(one, "outputs", &null);
    inner(outputs, output, &null).text_is("status", "retrying")
}

pub fn text_or_unknown(s: &Json, name: &str) -> (r: String)
    ensures
        r@ == known_text(*s, name@),
{
    match s.get_text(name) {
        Some(t) => t.to_string(),
        None => "unknown".to_string(),
    }
}

// ── Inputs ───────────────────────────────────────────────────────────────────

/// Whether the publisher of an input was lost so lately that it counts as still there.
pub open spec fn grace_active(input: Json) -> bool {
    input.bool_field("disconnectGraceActive"@) == Some(true)
}

/// Whether what is left of that time is within it.
pub open spec fn grace_bounded(input: Json) -> bool {
    input.u64_field("disconnectGraceRemainingMs"@) matches Some(ms) && 0 < ms <= GRACE_MS
}

/// Whether an input is live and shows no trace of an earlier loss.
pub open spec fn loss_cleared(input: Json) -> bool {
    &&& input.has_text("status"@, "on"@)
    &&& input.has_text("probeStatus"@, "ready"@)
    &&& input.lacks("lastSessionProtocol"@)
    &&& input.lacks("lastDisconnectReason"@)
    &&& input.lacks("lastFailurePhase"@)
    &&& input.bool_field("recentDisconnectError"@) == Some(false)
}

/// Whether an input tells that its publisher, of the given protocol, left in order.
pub open spec fn loss_told(input: Json, protocol: Seq<char>) -> bool {
    &&& input.has_text("lastSessionProtocol"@, protocol)
    &&& input.has_text("lastDisconnectReason"@, "publisher disconnected"@)
    &&& input.has_text("lastFailurePhase"@, "disconnect"@)
    &&& input.bool_field("recentDisconnectError"@) == Some(false)
}

/// The input of a pipeline, as a copy.
pub fn copy_input(health: &Option<Json>, pipeline: &str) -> (r: Json)
    ensures
        crate::json::same_json(r, input_in(*health, pipeline@)),
        crate::json::same_json(input_in(*health, pipeline@), r),
{
    match health {
        Some(h) => {
            let null: Json = Json::Null;
            let pipelines: &Json = inner(h, "pipelines", &null);
            inner(pipelines, pipeline, &null).copy_field("input")
        },
        None => Json::Null,
    }
}

fn flag_is(input: &Json, name: &str, value: bool) -> (r: bool)
    ensures
        r == (input.bool_field(name@) == Some(value)),
{
    match input.get_bool(name) {
        Some(b) => b == value,
        None => false,
    }
}

pub fn check_grace_active(input: &Json) -> (r: bool)
    ensures
        r == grace_active(*input),
{
    flag_is(input, "disconnectGraceActive", true)
}

pub fn check_grace_bounded(input: &Json) -> (r: bool)
    ensures
        r == grace_bounded(*input),
{
    match input.get_u64("disconnectGraceRemainingMs") {
        Some(ms) => 0 < ms && ms <= GRACE_MS,
        None => false,
    }
}

pub fn check_loss_cleared(input: &Json) -> (r: bool)
    ensures
        r == loss_cleared(*input),
{
    input.text_is("status", "on") && input.text_is("probeStatus", "ready") && input.is_absent(
        "lastSessionProtocol",
    ) && input.is_absent("lastDisconnectReason") && input.is_absent("lastFailurePhase") && flag_is(
        input,
        "recentDisconnectError",
        false,
    )
}

pub fn check_loss_told(input: &Json, protocol: &str) -> (r: bool)
    ensures
        r == loss_told(*input, protocol@),
{
    input.text_is("lastSessionProtocol", protocol) && input.text_is(
        "lastDisconnectReason",
        "publisher disconnected",
    ) && input.text_is("lastFailurePhase", "disconnect") && flag_is(
        input,
        "recentDisconnectError",
        false,
    )
}

// ── Laws ─────────────────────────────────────────────────────────────────────

/// An input does not show and clear a loss at once.
pub proof fn loss_is_told_or_cleared(input: Json, protocol: Seq<char>)
    ensures
        !(loss_told(input, protocol) && loss_cleared(input)),
{
}

/// An output retries where its status says so twice over; it tells an error where the text of one is
/// not empty; and its grace runs where the server says so, for no longer than the five seconds of it.
pub proof fn statuses_say_what_they_say(s: Json, input: Json)
    ensures
        shows_retry(s) <==> s.text_field("status"@) == Some("retrying"@) && s.bool_field(
            "retrying"@,
        ) == Some(true),
        tells_error(s) <==> s.text_field("lastError"@) is Some && s.text_field("lastError"@)->0.len()
            > 0,
        has_error(Some(s)) <==> tells_error(s),
        !has_error(None) && !retry_flag(None),
        retry_flag(Some(s)) <==> s.bool_field("retrying"@) == Some(true),
        grace_active(input) <==> input.bool_field("disconnectGraceActive"@) == Some(true),
        grace_bounded(input) <==> input.u64_field("disconnectGraceRemainingMs"@) is Some && 1
            <= input.u64_field("disconnectGraceRemainingMs"@)->0 <= 5000,
{
}

/// Where an input and an output stand in the health of a server: under their pipeline.
pub proof fn health_is_sorted_by_pipelines(
    health: Json,
    pipelines: Json,
    entry: Json,
    pipeline: Seq<char>,
    output: Seq<char>,
)
    requires
        health.field("pipelines"@) == Some(pipelines),
        pipelines.field(pipeline) == Some(entry),
    ensures
        input_in(Some(health), pipeline) == entry.field_or_null("input"@),
        output_in(health, pipeline, output) == entry.field_or_null("outputs"@).field_or_null(output),
        input_in(None, pipeline) == Json::Null,
{
}

/// A loss is told by four fields together, and cleared by six.
pub proof fn losses_are_told_and_cleared_in_full(input: Json, protocol: Seq<char>)
    ensures
        loss_told(input, protocol) <==> input.text_field("lastSessionProtocol"@) == Some(protocol)
            && input.text_field("lastDisconnectReason"@) == Some("publisher disconnected"@)
            && input.text_field("lastFailurePhase"@) == Some("disconnect"@) && input.bool_field(
            "recentDisconnectError"@,
        ) == Some(false),
        loss_cleared(input) <==> input.text_field("status"@) == Some("on"@) && input.text_field(
            "probeStatus"@,
        ) == Some("ready"@) && input.lacks("lastSessionProtocol"@) && input.lacks(
            "lastDisconnectReason"@,
        ) && input.lacks("lastFailurePhase"@) && input.bool_field("recentDisconnectError"@) == Some(
            false,
        ),
{
}

} // verus!
