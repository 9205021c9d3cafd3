//! What is written down of scenarios in which something goes away, and of a run of them.

use vstd::prelude::*;
use vstd::string::*;

use crate::harness::faults::{
    cleaned_up, departure_told, fault_scripts_are_balanced, file_end_script, file_end_survived,
    file_stop_script, output_cleaned_up, plan_file_end, plan_file_stop, plan_preview_stop,
    plan_recording_stop, plan_rtmp_disconnect, plan_rtmp_sink_loss, plan_srt_disconnect,
    plan_srt_sink_loss, plan_transcoder_stop, preview_stop_script, preview_stopped,
    recording_stop_script, recording_stopped, rtmp_disconnect_script, rtmp_disconnect_told,
    rtmp_sink_loss_script, rtmp_sink_loss_survived, srt_disconnect_script, srt_sink_loss_script,
    srt_sink_loss_survived, target_came_back, target_is_tried, transcoder_stop_script,
    transcoder_stopped, FileEnd, PreviewStop, RecordingStop, TargetReturn, TranscoderStop,
    NOT_FOUND,
};
use crate::harness::logs::HistoryReport;
use crate::harness::recovery::{
    check_seen_off, check_tells_timeout, drop_survived, plan_retry_gap, plan_rtmp_drop,
    plan_srt_drop, plan_upload_timeout, recovery_scripts_are_balanced, retry_gap_script,
    retry_gap_survived, retry_survived, rtmp_drop_script, rtmp_drop_survived, seen_off,
    srt_drop_script, srt_drop_survived, srt_survived, tells_timeout, upload_survived,
    upload_timeout_script, upload_timeout_survived, PublisherDrop, RetryGap, ScenarioPorts,
    SinkLossWatch, UploadTimeout,
};
use crate::harness::scenario::{balanced, Script, StepModel};
use crate::harness::status::{
    check_grace_active, check_grace_bounded, check_has_error, check_loss_cleared, check_loss_told,
    check_retry_flag, check_shows_retry, check_status, grace_active, grace_bounded, has_error,
    loss_cleared, loss_told, retry_flag, shows_retry, status_is,
};
use crate::harness::uploads::{content_types_ok, types_told};
use crate::json::{field_in, Json};
use crate::record::{cell_of, cells_of, is_record, text_cell, value_cell, whole_cell, Cell, Record};
use crate::text::{text_option, texts};

verus! {

// ── A publisher or a target goes away and comes back ─────────────────────────

/// What the record of an RTMP publisher that was lost for a short while says.
pub open spec fn rtmp_drop_cells(d: PublisherDrop) -> Seq<(Seq<char>, Cell)> {
    Seq::empty().push(
        ("test"@, Cell::Text("transient-rtmp-drop-preserves-egress"@)),
    ).push(
        ("passed"@, Cell::Flag(drop_survived(d))),
    ).push(
        ("baselineVideo"@, Cell::Whole(d.baseline_video as int)),
    ).push(
        ("baselineConnections"@, Cell::Whole(d.baseline_connections as int)),
    ).push(
        ("gapConnections"@, Cell::Whole(d.gap_connections as int)),
    ).push(
        ("gapStatusExists"@, Cell::Flag(d.gap_status is Some)),
    ).push(
        ("gapStatusRunning"@, Cell::Flag(status_is(d.gap_status, "running"@))),
    ).push(
        ("gapRetrying"@, Cell::Flag(retry_flag(d.gap_status))),
    ).push(
        ("gapHasError"@, Cell::Flag(has_error(d.gap_status))),
    ).push(
        ("gapGraceActive"@, Cell::Flag(grace_active(d.gap_input))),
    ).push(
        ("gapGraceRemainingBounded"@, Cell::Flag(grace_bounded(d.gap_input))),
    ).push(
        ("gapInputSnapshot"@, cell_of(d.gap_input)),
    ).push(
        ("resumed"@, Cell::Flag(d.resumed)),
    ).push(
        ("finalConnections"@, Cell::Whole(d.final_connections as int)),
    ).push(
        ("finalStatusRunning"@, Cell::Flag(status_is(d.final_status, "running"@))),
    ).push(
        ("finalRetrying"@, Cell::Flag(retry_flag(d.final_status))),
    ).push(
        ("finalDisconnectCleared"@, Cell::Flag(loss_cleared(d.final_input))),
    ).push(
        ("finalInputSnapshot"@, cell_of(d.final_input)),
    )
}

/// The record of an RTMP publisher that was lost for a short while.
pub fn rtmp_drop_record(d: PublisherDrop) -> (r: Json)
    ensures
        is_record(r, rtmp_drop_cells(d)),
{
    let mut f: Record = Record::new();
    f.add_text("test", "transient-rtmp-drop-preserves-egress");
    f.add_flag("passed", rtmp_drop_survived(&d));
    f.add_whole("baselineVideo", d.baseline_video);
    f.add_whole("baselineConnections", d.baseline_connections);
    f.add_whole("gapConnections", d.gap_connections);
    f.add_flag("gapStatusExists", d.gap_status.is_some());
    f.add_flag("gapStatusRunning", check_status(&d.gap_status, "running"));
    f.add_flag("gapRetrying", check_retry_flag(&d.gap_status));
    f.add_flag("gapHasError", check_has_error(&d.gap_status));
    f.add_flag("gapGraceActive", check_grace_active(&d.gap_input));
    f.add_flag("gapGraceRemainingBounded", check_grace_bounded(&d.gap_input));
    f.add_field("gapInputSnapshot", d.gap_input);
    f.add_flag("resumed", d.resumed);
    f.add_whole("finalConnections", d.final_connections);
    f.add_flag("finalStatusRunning", check_status(&d.final_status, "running"));
    f.add_flag("finalRetrying", check_retry_flag(&d.final_status));
    f.add_flag("finalDisconnectCleared", check_loss_cleared(&d.final_input));
    f.add_field("finalInputSnapshot", d.final_input);
    f.finish()
}

/// What the record of an SRT publisher that was lost for a short while says.
pub open spec fn srt_drop_cells(
    d: PublisherDrop,
    off_error: Option<Seq<char>>,
    media_error: Option<Seq<char>>,
) -> Seq<(Seq<char>, Cell)> {
    Seq::empty().push(
        ("test"@, Cell::Text("transient-srt-drop-preserves-egress"@)),
    ).push(
        ("passed"@, Cell::Flag(srt_survived(d, off_error, media_error))),
    ).push(
        ("baselineVideo"@, Cell::Whole(d.baseline_video as int)),
    ).push(
        ("baselineConnections"@, Cell::Whole(d.baseline_connections as int)),
    ).push(
        ("gapConnections"@, Cell::Whole(d.gap_connections as int)),
    ).push(
        ("gapInputOff"@, Cell::Flag(seen_off(d, off_error))),
    ).push(
        ("gapOffError"@, text_cell(off_error)),
    ).push(
        ("gapOffInputSnapshot"@, cell_of(d.gap_input)),
    ).push(
        ("gapStatusExists"@, Cell::Flag(d.gap_status is Some)),
    ).push(
        ("gapStatusRunning"@, Cell::Flag(status_is(d.gap_status, "running"@))),
    ).push(
        ("gapRetrying"@, Cell::Flag(retry_flag(d.gap_status))),
    ).push(
        ("gapHasError"@, Cell::Flag(has_error(d.gap_status))),
    ).push(
        ("gapGraceActive"@, Cell::Flag(grace_active(d.gap_input))),
    ).push(
        ("gapGraceRemainingBounded"@, Cell::Flag(grace_bounded(d.gap_input))),
    ).push(
        ("resumed"@, Cell::Flag(d.resumed)),
    ).push(
        ("mediaReady"@, Cell::Flag(media_error is None)),
    ).push(
        ("mediaReadyError"@, text_cell(media_error)),
    ).push(
        ("finalConnections"@, Cell::Whole(d.final_connections as int)),
    ).push(
        ("finalStatusRunning"@, Cell::Flag(status_is(d.final_status, "running"@))),
    ).push(
        ("finalRetrying"@, Cell::Flag(retry_flag(d.final_status))),
    ).push(
        ("finalDisconnectCleared"@, Cell::Flag(loss_cleared(d.final_input))),
    ).push(
        ("finalInputSnapshot"@, cell_of(d.final_input)),
    )
}

/// The record of an SRT publisher that was lost for a short while.
pub fn srt_drop_record(
    d: PublisherDrop,
    off_error: &Option<String>,
    media_error: &Option<String>,
) -> (r: Json)
    ensures
        is_record(r, srt_drop_cells(d, text_option(*off_error), text_option(*media_error))),
{
    let gap_grace_active: bool = check_grace_active(&d.gap_input);
    let gap_grace_bounded: bool = check_grace_bounded(&d.gap_input);
    let mut f: Record = Record::new();
    f.add_text("test", "transient-srt-drop-preserves-egress");
    f.add_flag("passed", srt_drop_survived(&d, off_error, media_error));
    f.add_whole("baselineVideo", d.baseline_video);
    f.add_whole("baselineConnections", d.baseline_connections);
    f.add_whole("gapConnections", d.gap_connections);
    f.add_flag("gapInputOff", check_seen_off(&d, off_error));
    f.add_text_or_null("gapOffError", off_error);
    f.add_field("gapOffInputSnapshot", d.gap_input);
    f.add_flag("gapStatusExists", d.gap_status.is_some());
    f.add_flag("gapStatusRunning", check_status(&d.gap_status, "running"));
    f.add_flag("gapRetrying", check_retry_flag(&d.gap_status));
    f.add_flag("gapHasError", check_has_error(&d.gap_status));
    f.add_flag("gapGraceActive", gap_grace_active);
    f.add_flag("gapGraceRemainingBounded", gap_grace_bounded);
    f.add_flag("resumed", d.resumed);
    f.add_flag("mediaReady", media_error.is_none());
    f.add_text_or_null("mediaReadyError", media_error);
    f.add_whole("finalConnections", d.final_connections);
    f.add_flag("finalStatusRunning", check_status(&d.final_status, "running"));
    f.add_flag("finalRetrying", check_retry_flag(&d.final_status));
    f.add_flag("finalDisconnectCleared", check_loss_cleared(&d.final_input));
    f.add_field("finalInputSnapshot", d.final_input);
    f.finish()
}

/// What the record of a target that was lost, and then its publisher says.
pub open spec fn retry_gap_cells(g: RetryGap, recovery_status: Seq<char>) -> Seq<(Seq<char>, Cell)> {
    Seq::empty().push(
        ("test"@, Cell::Text("egress-retry-survives-transient-ingest-gap"@)),
    ).push(
        ("passed"@, Cell::Flag(retry_survived(g))),
    ).push(
        ("baselineVideo"@, Cell::Whole(g.baseline_video as int)),
    ).push(
        ("retryPhase"@, Cell::Text(g.retry.phase@)),
    ).push(
        ("retryHasError"@, Cell::Flag(g.retry.error@.len() > 0)),
    ).push(
        ("retryStatusVisible"@, Cell::Flag(g.retry.status_visible)),
    ).push(
        ("retryHealthVisible"@, Cell::Flag(g.retry.health_visible)),
    ).push(
        ("retryAttempts"@, whole_cell(g.retry.retry_attempts)),
    ).push(
        ("retryBackoffMs"@, whole_cell(g.retry.retry_backoff_ms)),
    ).push(
        ("inputOffError"@, text_cell(text_option(g.off_error))),
    ).push(
        ("gapOutputRetrying"@, Cell::Flag(g.gap_status matches Some(s) && shows_retry(s))),
    ).push(
        ("gapHealthRetrying"@, Cell::Flag(shows_retry(g.gap_output))),
    ).push(
        ("gapDisconnectVisible"@, Cell::Flag(g.gap_input.has_text("status"@, "off"@) && loss_told(g.gap_input, "rtmp"@))),
    ).push(
        ("gapGraceActive"@, Cell::Flag(grace_active(g.gap_input))),
    ).push(
        ("gapGraceRemainingBounded"@, Cell::Flag(grace_bounded(g.gap_input))),
    ).push(
        ("gapInputSnapshot"@, cell_of(g.gap_input)),
    ).push(
        ("mediaReady"@, Cell::Flag(g.media_error is None)),
    ).push(
        ("mediaReadyError"@, text_cell(text_option(g.media_error))),
    ).push(
        ("recovered"@, Cell::Flag(g.recovered)),
    ).push(
        ("recoveryStatus"@, Cell::Text(recovery_status)),
    ).push(
        ("finalStatusRunning"@, Cell::Flag(status_is(g.final_status, "running"@))),
    ).push(
        ("finalRetrying"@, Cell::Flag(retry_flag(g.final_status))),
    ).push(
        ("finalDisconnectCleared"@, Cell::Flag(loss_cleared(g.final_input))),
    ).push(
        ("finalInputSnapshot"@, cell_of(g.final_input)),
    )
}

/// The record of a target that was lost, and then its publisher.
pub fn retry_gap_record(g: RetryGap, recovery_status: &str) -> (r: Json)
    ensures
        is_record(r, retry_gap_cells(g, recovery_status@)),
{
    let gap_retrying: bool = match &g.gap_status {
        Some(s) => check_shows_retry(s),
        None => false,
    };
    let mut f: Record = Record::new();
    f.add_text("test", "egress-retry-survives-transient-ingest-gap");
    f.add_flag("passed", retry_gap_survived(&g));
    f.add_whole("baselineVideo", g.baseline_video);
    f.add_text("retryPhase", g.retry.phase.as_str());
    f.add_flag("retryHasError", !g.retry.error.as_str().is_empty());
    f.add_flag("retryStatusVisible", g.retry.status_visible);
    f.add_flag("retryHealthVisible", g.retry.health_visible);
    f.add_whole_or_null("retryAttempts", g.retry.retry_attempts);
    f.add_whole_or_null("retryBackoffMs", g.retry.retry_backoff_ms);
    f.add_text_or_null("inputOffError", &g.off_error);
    f.add_flag("gapOutputRetrying", gap_retrying);
    f.add_flag("gapHealthRetrying", check_shows_retry(&g.gap_output));
    f.add_flag("gapDisconnectVisible", g.gap_input.text_is("status", "off") && check_loss_told(&g.gap_input, "rtmp"));
    f.add_flag("gapGraceActive", check_grace_active(&g.gap_input));
    f.add_flag("gapGraceRemainingBounded", check_grace_bounded(&g.gap_input));
    f.add_field("gapInputSnapshot", g.gap_input);
    f.add_flag("mediaReady", g.media_error.is_none());
    f.add_text_or_null("mediaReadyError", &g.media_error);
    f.add_flag("recovered", g.recovered);
    f.add_text("recoveryStatus", recovery_status);
    f.add_flag("finalStatusRunning", check_status(&g.final_status, "running"));
    f.add_flag("finalRetrying", check_retry_flag(&g.final_status));
    f.add_flag("finalDisconnectCleared", check_loss_cleared(&g.final_input));
    f.add_field("finalInputSnapshot", g.final_input);
    f.finish()
}

/// What the record of an upload whose target did not answer says.
pub open spec fn upload_timeout_cells(u: UploadTimeout, recovery_status: Seq<char>) -> Seq<(Seq<char>, Cell)> {
    Seq::empty().push(
        ("test"@, Cell::Text("hls-put-timeout-recovers-after-restart"@)),
    ).push(
        ("passed"@, Cell::Flag(upload_survived(u))),
    ).push(
        ("retryStatusVisible"@, Cell::Flag(u.retry.status_visible)),
    ).push(
        ("retryHealthVisible"@, Cell::Flag(u.retry.health_visible)),
    ).push(
        ("retryHasError"@, Cell::Flag(u.retry.error@.len() > 0)),
    ).push(
        ("retryPhase"@, Cell::Text(u.retry.phase@)),
    ).push(
        ("retryFailurePhase"@, Cell::Text(u.retry.failure_phase@)),
    ).push(
        ("retryError"@, Cell::Text(u.retry.error@)),
    ).push(
        ("timeoutErrorVisible"@, Cell::Flag(tells_timeout(u.retry.error@))),
    ).push(
        ("artifactsFound"@, Cell::Flag(u.artifacts_found)),
    ).push(
        ("contentTypesCorrect"@, Cell::Flag(u.requests matches Some(requests) && types_told(requests@))),
    ).push(
        ("recovered"@, Cell::Flag(u.recovered)),
    ).push(
        ("recoveryStatus"@, Cell::Text(recovery_status)),
    ).push(
        ("finalStatusRunning"@, Cell::Flag(status_is(u.final_status, "running"@))),
    ).push(
        ("finalRetrying"@, Cell::Flag(retry_flag(u.final_status))),
    ).push(
        ("finalErrorCleared"@, Cell::Flag(u.final_status matches Some(s) && s.lacks("lastError"@))),
    ).push(
        ("finalBytesOut"@, Cell::Whole(u.final_bytes_out as int)),
    ).push(
        ("finalStatus"@, value_cell(u.final_status)),
    )
}

/// The record of an upload whose target did not answer.
pub fn upload_timeout_record(u: UploadTimeout, recovery_status: &str) -> (r: Json)
    ensures
        is_record(r, upload_timeout_cells(u, recovery_status@)),
{
    let types_ok: bool = match &u.requests {
        Some(requests) => content_types_ok(requests),
        None => false,
    };
    let error_cleared: bool = match &u.final_status {
        Some(s) => s.is_absent("lastError"),
        None => false,
    };
    let mut f: Record = Record::new();
    f.add_text("test", "hls-put-timeout-recovers-after-restart");
    f.add_flag("passed", upload_timeout_survived(&u));
    f.add_flag("retryStatusVisible", u.retry.status_visible);
    f.add_flag("retryHealthVisible", u.retry.health_visible);
    f.add_flag("retryHasError", !u.retry.error.as_str().is_empty());
    f.add_text("retryPhase", u.retry.phase.as_str());
    f.add_text("retryFailurePhase", u.retry.failure_phase.as_str());
    f.add_text("retryError", u.retry.error.as_str());
    f.add_flag("timeoutErrorVisible", check_tells_timeout(u.retry.error.as_str()));
    f.add_flag("artifactsFound", u.artifacts_found);
    f.add_flag("contentTypesCorrect", types_ok);
    f.add_flag("recovered", u.recovered);
    f.add_text("recoveryStatus", recovery_status);
    f.add_flag("finalStatusRunning", check_status(&u.final_status, "running"));
    f.add_flag("finalRetrying", check_retry_flag(&u.final_status));
    f.add_flag("finalErrorCleared", error_cleared);
    f.add_whole("finalBytesOut", u.final_bytes_out);
    f.add_field_or_null("finalStatus", u.final_status);
    f.finish()
}

// ── Something goes away for good ─────────────────────────────────────────────

/// What the record of an RTMP target that was lost and came back says.
pub open spec fn rtmp_sink_loss_cells(
    watch: SinkLossWatch,
    back: TargetReturn,
    final_status: Option<Json>,
    elapsed_ms: u64,
) -> Seq<(Seq<char>, Cell)> {
    Seq::empty().push(
        ("test"@, Cell::Text("rtmp-egress-sink-disappear"@)),
    ).push(
        ("passed"@, Cell::Flag(target_came_back(watch@, back, final_status))),
    ).push(
        ("phase"@, Cell::Text(watch.phase@)),
    ).push(
        ("hasError"@, Cell::Flag(watch.has_error)),
    ).push(
        ("elapsedMs"@, Cell::Whole(elapsed_ms as int)),
    ).push(
        ("sawRetrying"@, Cell::Flag(watch.saw_retrying || back.saw_retrying)),
    ).push(
        ("healthSawRetrying"@, Cell::Flag(watch.health_saw_retrying)),
    ).push(
        ("retryAttempts"@, whole_cell(watch.retry_attempts)),
    ).push(
        ("retryBackoffMs"@, whole_cell(watch.retry_backoff_ms)),
    ).push(
        ("recovered"@, Cell::Flag(back.recovered)),
    ).push(
        ("recoveryStatus"@, Cell::Text(back.status@)),
    ).push(
        ("finalRetrying"@, Cell::Flag(retry_flag(final_status))),
    )
}

/// The record of an RTMP target that was lost and came back.
pub fn rtmp_sink_loss_record(
    watch: &SinkLossWatch,
    back: &TargetReturn,
    final_status: &Option<Json>,
    elapsed_ms: u64,
) -> (r: Json)
    ensures
        is_record(r, rtmp_sink_loss_cells(*watch, *back, *final_status, elapsed_ms)),
{
    let mut f: Record = Record::new();
    f.add_text("test", "rtmp-egress-sink-disappear");
    f.add_flag("passed", rtmp_sink_loss_survived(watch, back, final_status));
    f.add_text("phase", watch.phase.as_str());
    f.add_flag("hasError", watch.has_error);
    f.add_whole("elapsedMs", elapsed_ms);
    f.add_flag("sawRetrying", watch.saw_retrying || back.saw_retrying);
    f.add_flag("healthSawRetrying", watch.health_saw_retrying);
    f.add_whole_or_null("retryAttempts", watch.retry_attempts);
    f.add_whole_or_null("retryBackoffMs", watch.retry_backoff_ms);
    f.add_flag("recovered", back.recovered);
    f.add_text("recoveryStatus", back.status.as_str());
    f.add_flag("finalRetrying", check_retry_flag(final_status));
    f.finish()
}

/// What the record of an SRT target that is gone for good says.
pub open spec fn srt_sink_loss_cells(
    watch: SinkLossWatch,
    final_status: Option<Json>,
    elapsed_ms: u64,
) -> Seq<(Seq<char>, Cell)> {
    Seq::empty().push(
        ("test"@, Cell::Text("srt-egress-sink-disappear"@)),
    ).push(
        ("passed"@, Cell::Flag(target_is_tried(watch@, final_status))),
    ).push(
        ("phase"@, Cell::Text(watch.phase@)),
    ).push(
        ("hasError"@, Cell::Flag(watch.has_error)),
    ).push(
        ("elapsedMs"@, Cell::Whole(elapsed_ms as int)),
    ).push(
        ("sawRetrying"@, Cell::Flag(watch.saw_retrying)),
    ).push(
        ("healthSawRetrying"@, Cell::Flag(watch.health_saw_retrying)),
    ).push(
        ("retryAttempts"@, whole_cell(watch.retry_attempts)),
    ).push(
        ("retryBackoffMs"@, whole_cell(watch.retry_backoff_ms)),
    ).push(
        ("finalRetrying"@, Cell::Flag(retry_flag(final_status))),
    )
}

/// The record of an SRT target that is gone for good.
pub fn srt_sink_loss_record(
    watch: &SinkLossWatch,
    final_status: &Option<Json>,
    elapsed_ms: u64,
) -> (r: Json)
    ensures
        is_record(r, srt_sink_loss_cells(*watch, *final_status, elapsed_ms)),
{
    let mut f: Record = Record::new();
    f.add_text("test", "srt-egress-sink-disappear");
    f.add_flag("passed", srt_sink_loss_survived(watch, final_status));
    f.add_text("phase", watch.phase.as_str());
    f.add_flag("hasError", watch.has_error);
    f.add_whole("elapsedMs", elapsed_ms);
    f.add_flag("sawRetrying", watch.saw_retrying);
    f.add_flag("healthSawRetrying", watch.health_saw_retrying);
    f.add_whole_or_null("retryAttempts", watch.retry_attempts);
    f.add_whole_or_null("retryBackoffMs", watch.retry_backoff_ms);
    f.add_flag("finalRetrying", check_retry_flag(final_status));
    f.finish()
}

/// What the record of an RTMP publisher that left says.
pub open spec fn rtmp_disconnect_cells(off_error: Option<Seq<char>>, input: Json, elapsed_ms: u64) -> Seq<(Seq<char>, Cell)> {
    Seq::empty().push(
        ("test"@, Cell::Text("rtmp-publisher-disconnect"@)),
    ).push(
        ("passed"@, Cell::Flag(off_error is None && departure_told(input))),
    ).push(
        ("elapsedMs"@, Cell::Whole(elapsed_ms as int)),
    ).push(
        ("error"@, text_cell(off_error)),
    ).push(
        ("disconnectFieldsOk"@, Cell::Flag(departure_told(input))),
    ).push(
        ("inputSnapshot"@, cell_of(input)),
    )
}

/// The record of an RTMP publisher that left.
pub fn rtmp_disconnect_record(off_error: &Option<String>, input: Json, elapsed_ms: u64) -> (r: Json)
    ensures
        is_record(r, rtmp_disconnect_cells(text_option(*off_error), input, elapsed_ms)),
{
    let mut f: Record = Record::new();
    f.add_text("test", "rtmp-publisher-disconnect");
    f.add_flag("passed", off_error.is_none() && rtmp_disconnect_told(&input));
    f.add_whole("elapsedMs", elapsed_ms);
    f.add_text_or_null("error", off_error);
    f.add_flag("disconnectFieldsOk", rtmp_disconnect_told(&input));
    f.add_field("inputSnapshot", input);
    f.finish()
}

/// What the record of an input that was awaited to go off says.
pub open spec fn input_off_cells(
    test: Seq<char>,
    off_error: Option<Seq<char>>,
    elapsed_ms: u64,
) -> Seq<(Seq<char>, Cell)> {
    Seq::empty().push(
        ("test"@, Cell::Text(test)),
    ).push(
        ("passed"@, Cell::Flag(off_error is None)),
    ).push(
        ("elapsedMs"@, Cell::Whole(elapsed_ms as int)),
    ).push(
        ("error"@, text_cell(off_error)),
    )
}

/// The record of an input that was awaited to go off.
pub fn input_off_record(test: &str, off_error: &Option<String>, elapsed_ms: u64) -> (r: Json)
    ensures
        is_record(r, input_off_cells(test@, text_option(*off_error), elapsed_ms)),
{
    let mut f: Record = Record::new();
    f.add_text("test", test);
    f.add_flag("passed", off_error.is_none());
    f.add_whole("elapsedMs", elapsed_ms);
    f.add_text_or_null("error", off_error);
    f.finish()
}

/// The error of a result.
pub open spec fn error_text<T>(r: Result<T, String>) -> Option<Seq<char>> {
    match r {
        Ok(_) => None,
        Err(e) => Some(e@),
    }
}

/// What the record of a recording whose publisher left says.
pub open spec fn recording_stop_cells(s: RecordingStop, elapsed_ms: u64) -> Seq<(Seq<char>, Cell)> {
    Seq::empty().push(
        ("test"@, Cell::Text("recording-stops-after-ingest-disconnect"@)),
    ).push(
        ("passed"@, Cell::Flag(s.as_expected())),
    ).push(
        ("elapsedMs"@, Cell::Whole(elapsed_ms as int)),
    ).push(
        ("inputOffError"@, text_cell(text_option(s.off_error))),
    ).push(
        ("recordingActiveError"@, text_cell(text_option(s.active_error))),
    ).push(
        ("recordingInactiveError"@, text_cell(error_text(s.inactive))),
    ).push(
        ("recordingEnabled"@, Cell::Flag(s.still_enabled())),
    ).push(
        ("recordingActive"@, Cell::Flag(s.still_active())),
    ).push(
        ("recordingFileFound"@, Cell::Flag(s.file_found)),
    )
}

/// The record of a recording whose publisher left.
pub fn recording_stop_record(s: &RecordingStop, elapsed_ms: u64) -> (r: Json)
    ensures
        is_record(r, recording_stop_cells(*s, elapsed_ms)),
{
    let inactive_error: Option<String> = match &s.inactive {
        Ok(_) => None,
        Err(e) => Some(e.clone()),
    };
    let mut f: Record = Record::new();
    f.add_text("test", "recording-stops-after-ingest-disconnect");
    f.add_flag("passed", recording_stopped(s));
    f.add_whole("elapsedMs", elapsed_ms);
    f.add_text_or_null("inputOffError", &s.off_error);
    f.add_text_or_null("recordingActiveError", &s.active_error);
    f.add_text_or_null("recordingInactiveError", &inactive_error);
    f.add_flag("recordingEnabled", s.enabled());
    f.add_flag("recordingActive", s.active());
    f.add_flag("recordingFileFound", s.file_found);
    f.finish()
}

/// What the record of a transcoder whose publisher left says.
pub open spec fn transcoder_stop_cells(s: TranscoderStop, elapsed_ms: u64) -> Seq<(Seq<char>, Cell)> {
    Seq::empty().push(
        ("test"@, Cell::Text("external-transcoder-stops-after-ingest-disconnect"@)),
    ).push(
        ("passed"@, Cell::Flag(s.as_expected())),
    ).push(
        ("elapsedMs"@, Cell::Whole(elapsed_ms as int)),
    ).push(
        ("inputOffError"@, text_cell(text_option(s.off_error))),
    ).push(
        ("ffmpegSpawned"@, Cell::Flag(s.watch.spawned)),
    ).push(
        ("peakFfmpegChildren"@, Cell::Whole(s.watch.peak_children as int)),
    ).push(
        ("peakTranscoderBuffers"@, Cell::Whole(s.watch.peak_buffers as int)),
    ).push(
        ("sawOutputBytes"@, Cell::Flag(s.watch.saw_output_bytes)),
    ).push(
        ("finalFfmpegChildren"@, Cell::Whole(s.last_children as int)),
    ).push(
        ("finalActiveTranscoderBuffers"@, Cell::Whole(s.last_buffers as int)),
    ).push(
        ("outputCleanedUp"@, Cell::Flag(cleaned_up(s.final_status))),
    )
}

/// The record of a transcoder whose publisher left.
pub fn transcoder_stop_record(s: &TranscoderStop, elapsed_ms: u64) -> (r: Json)
    ensures
        is_record(r, transcoder_stop_cells(*s, elapsed_ms)),
{
    let mut f: Record = Record::new();
    f.add_text("test", "external-transcoder-stops-after-ingest-disconnect");
    f.add_flag("passed", transcoder_stopped(s));
    f.add_whole("elapsedMs", elapsed_ms);
    f.add_text_or_null("inputOffError", &s.off_error);
    f.add_flag("ffmpegSpawned", s.watch.spawned);
    f.add_whole("peakFfmpegChildren", s.watch.peak_children);
    f.add_whole("peakTranscoderBuffers", s.watch.peak_buffers);
    f.add_flag("sawOutputBytes", s.watch.saw_output_bytes);
    f.add_whole("finalFfmpegChildren", s.last_children);
    f.add_whole("finalActiveTranscoderBuffers", s.last_buffers);
    f.add_flag("outputCleanedUp", output_cleaned_up(&s.final_status));
    f.finish()
}

/// What the record of a preview whose publisher left says.
pub open spec fn preview_stop_cells(s: PreviewStop, elapsed_ms: u64) -> Seq<(Seq<char>, Cell)> {
    Seq::empty().push(
        ("test"@, Cell::Text("hls-preview-stops-after-ingest-disconnect"@)),
    ).push(
        ("passed"@, Cell::Flag(s.as_expected())),
    ).push(
        ("elapsedMs"@, Cell::Whole(elapsed_ms as int)),
    ).push(
        ("playlistStatus"@, Cell::Whole(s.first_status() as int)),
    ).push(
        ("playlistOk"@, Cell::Flag(s.was_served())),
    ).push(
        ("playlistError"@, text_cell(error_text(s.playlist))),
    ).push(
        ("hlsPreviewActiveError"@, text_cell(text_option(s.active_error))),
    ).push(
        ("inputOffError"@, text_cell(text_option(s.off_error))),
    ).push(
        ("hlsPreviewInactiveError"@, text_cell(text_option(s.inactive_error))),
    ).push(
        ("finalPlaylistStatus"@, Cell::Whole(s.last_status as int)),
    ).push(
        ("finalPlaylistGone"@, Cell::Flag(s.last_status == NOT_FOUND)),
    )
}

/// The record of a preview whose publisher left.
pub fn preview_stop_record(s: &PreviewStop, elapsed_ms: u64) -> (r: Json)
    ensures
        is_record(r, preview_stop_cells(*s, elapsed_ms)),
{
    let playlist_error: Option<String> = match &s.playlist {
        Ok(_) => None,
        Err(e) => Some(e.clone()),
    };
    let mut f: Record = Record::new();
    f.add_text("test", "hls-preview-stops-after-ingest-disconnect");
    f.add_flag("passed", preview_stopped(s));
    f.add_whole("elapsedMs", elapsed_ms);
    f.add_whole("playlistStatus", s.status() as u64);
    f.add_flag("playlistOk", s.served());
    f.add_text_or_null("playlistError", &playlist_error);
    f.add_text_or_null("hlsPreviewActiveError", &s.active_error);
    f.add_text_or_null("inputOffError", &s.off_error);
    f.add_text_or_null("hlsPreviewInactiveError", &s.inactive_error);
    f.add_whole("finalPlaylistStatus", s.last_status as u64);
    f.add_flag("finalPlaylistGone", s.last_status == NOT_FOUND);
    f.finish()
}

/// What the record of a file ingest that came to its end says.
pub open spec fn file_end_cells(s: FileEnd, elapsed_ms: u64) -> Seq<(Seq<char>, Cell)> {
    Seq::empty().push(
        ("test"@, Cell::Text("file-ingest-eof-clears-and-restarts"@)),
    ).push(
        ("passed"@, Cell::Flag(s.as_expected())),
    ).push(
        ("elapsedMs"@, Cell::Whole(elapsed_ms as int)),
    ).push(
        ("runningError"@, text_cell(text_option(s.running_error))),
    ).push(
        ("inputOffError"@, text_cell(text_option(s.off_error))),
    ).push(
        ("stoppedError"@, text_cell(text_option(s.stopped_error))),
    ).push(
        ("restartError"@, text_cell(text_option(s.restart_error))),
    )
}

/// The record of a file ingest that came to its end.
pub fn file_end_record(s: &FileEnd, elapsed_ms: u64) -> (r: Json)
    ensures
        is_record(r, file_end_cells(*s, elapsed_ms)),
{
    let mut f: Record = Record::new();
    f.add_text("test", "file-ingest-eof-clears-and-restarts");
    f.add_flag("passed", file_end_survived(s));
    f.add_whole("elapsedMs", elapsed_ms);
    f.add_text_or_null("runningError", &s.running_error);
    f.add_text_or_null("inputOffError", &s.off_error);
    f.add_text_or_null("stoppedError", &s.stopped_error);
    f.add_text_or_null("restartError", &s.restart_error);
    f.finish()
}

// ── Runs of scenarios ────────────────────────────────────────────────────────

/// A scenario in which something goes away.
#[derive(Debug, Clone, Copy, PartialEq, Eq, Structural)]
pub enum Fault {
    RtmpDrop,
    SrtDrop,
    RetryGap,
    UploadTimeout,
    RtmpSinkLoss,
    SrtSinkLoss,
    RtmpDisconnect,
    SrtDisconnect,
    FileStop,
    RecordingStop,
    TranscoderStop,
    PreviewStop,
    FileEnd,
}

/// The script of a scenario; uploads are kept in the given directory.
pub open spec fn fault_script(fault: Fault, p: ScenarioPorts, secs: u64, dir: Seq<char>) -> Seq<
    StepModel,
> {
    match fault {
        Fault::RtmpDrop => rtmp_drop_script(p, secs),
        Fault::SrtDrop => srt_drop_script(p, secs),
        Fault::RetryGap => retry_gap_script(p, secs),
        Fault::UploadTimeout => upload_timeout_script(p, secs, dir),
        Fault::RtmpSinkLoss => rtmp_sink_loss_script(p, secs),
        Fault::SrtSinkLoss => srt_sink_loss_script(p, secs),
        Fault::RtmpDisconnect => rtmp_disconnect_script(p, secs),
        Fault::SrtDisconnect => srt_disconnect_script(p, secs),
        Fault::FileStop => file_stop_script(secs),
        Fault::RecordingStop => recording_stop_script(p, secs),
        Fault::TranscoderStop => transcoder_stop_script(p, secs),
        Fault::PreviewStop => preview_stop_script(p, secs),
        Fault::FileEnd => file_end_script(),
    }
}

/// The script of a scenario; uploads are kept in the given directory.
pub fn plan_fault(fault: Fault, p: ScenarioPorts, secs: u64, dir: &str) -> (r: Script)
    ensures
        r@ == fault_script(fault, p, secs, dir@),
{
    match fault {
        Fault::RtmpDrop => plan_rtmp_drop(p, secs),
        Fault::SrtDrop => plan_srt_drop(p, secs),
        Fault::RetryGap => plan_retry_gap(p, secs),
        Fault::UploadTimeout => plan_upload_timeout(p, secs, dir),
        Fault::RtmpSinkLoss => plan_rtmp_sink_loss(p, secs),
        Fault::SrtSinkLoss => plan_srt_sink_loss(p, secs),
        Fault::RtmpDisconnect => plan_rtmp_disconnect(p, secs),
        Fault::SrtDisconnect => plan_srt_disconnect(p, secs),
        Fault::FileStop => plan_file_stop(secs),
        Fault::RecordingStop => plan_recording_stop(p, secs),
        Fault::TranscoderStop => plan_transcoder_stop(p, secs),
        Fault::PreviewStop => plan_preview_stop(p, secs),
        Fault::FileEnd => plan_file_end(),
    }
}

/// The scenarios of what comes back.
pub open spec fn recovery_faults() -> Seq<Fault> {
    seq![Fault::RtmpDrop, Fault::SrtDrop, Fault::RetryGap, Fault::UploadTimeout]
}

/// The scenarios of targets that are lost.
pub open spec fn egress_retry_faults() -> Seq<Fault> {
    seq![Fault::RtmpSinkLoss, Fault::SrtSinkLoss]
}

/// All scenarios: the publishers that leave, what comes back, and what depends on a publisher.
pub open spec fn resilience_faults() -> Seq<Fault> {
    seq![Fault::RtmpDisconnect, Fault::SrtDisconnect] + recovery_faults() + seq![
        Fault::FileStop,
        Fault::RecordingStop,
        Fault::TranscoderStop,
    ] + egress_retry_faults() + seq![Fault::PreviewStop, Fault::FileEnd]
}

/// The scenarios of what comes back.
pub fn plan_recovery() -> (r: Vec<Fault>)
    ensures
        r@ == recovery_faults(),
{
    vec![Fault::RtmpDrop, Fault::SrtDrop, Fault::RetryGap, Fault::UploadTimeout]
}

/// The scenarios of targets that are lost.
pub fn plan_egress_retry() -> (r: Vec<Fault>)
    ensures
        r@ == egress_retry_faults(),
{
    vec![Fault::RtmpSinkLoss, Fault::SrtSinkLoss]
}

/// All scenarios, in the order in which they are run.
pub fn plan_resilience() -> (r: Vec<Fault>)
    ensures
        r@ == resilience_faults(),
{
    let r: Vec<Fault> =
        vec![
        Fault::RtmpDisconnect,
        Fault::SrtDisconnect,
        Fault::RtmpDrop,
        Fault::SrtDrop,
        Fault::RetryGap,
        Fault::UploadTimeout,
        Fault::FileStop,
        Fault::RecordingStop,
        Fault::TranscoderStop,
        Fault::RtmpSinkLoss,
        Fault::SrtSinkLoss,
        Fault::PreviewStop,
        Fault::FileEnd,
    ];
    assert(r@ =~= resilience_faults());
    r
}

/// Whether every record tells that its scenario passed.
pub open spec fn every_test_passed(tests: Seq<Json>) -> bool {
    forall|i: int| 0 <= i < tests.len() ==> (#[trigger] tests[i]).bool_field("passed"@) == Some(true)
}

/// Whether every record tells that its scenario passed.
pub fn all_passed(tests: &Vec<Json>) -> (r: bool)
    ensures
        r == every_test_passed(tests@),
{
    let mut i: usize = 0;
    while i < tests.len()
        invariant
            i <= tests@.len(),
            forall|k: int|
                0 <= k < i ==> (#[trigger] tests@[k]).bool_field("passed"@) == Some(true),
        decreases tests@.len() - i,
    {
        let passed: bool = match tests[i].get_bool("passed") {
            Some(b) => b,
            None => false,
        };
        if !passed {
            assert(tests@[i as int].bool_field("passed"@) != Some(true));
            return false;
        }
        i += 1;
    }
    true
}

/// What a run of scenarios comes to.
pub fn scenarios_verdict(mode: &str, tests: &Vec<Json>) -> (r: Result<(), String>)
    ensures
        match r {
            Ok(_) => every_test_passed(tests@),
            Err(message) => !every_test_passed(tests@) && message@ == mode@
                + ": not all tests passed"@,
        },
{
    if all_passed(tests) {
        Ok(())
    } else {
        Err(mode.to_string().concat(": not all tests passed"))
    }
}

/// What the record of the log's history says.
pub open spec fn history_cells(h: HistoryReport, expected: Seq<Seq<char>>) -> Seq<
    (Seq<char>, Cell),
> {
    Seq::empty().push(
        ("pipelineLogCount"@, Cell::Whole(h.pipeline_logs as int)),
    ).push(
        ("expectedEventTypes"@, Cell::Texts(expected)),
    ).push(
        ("correlatedPipelineLogCount"@, Cell::Whole(h.correlated_logs as int)),
    ).push(
        ("externalTranscoderLogCount"@, Cell::Whole(h.transcoder_logs as int)),
    ).push(
        ("externalTranscoderCorrelated"@, Cell::Flag(h.transcoder_correlated)),
    )
}

/// The record of the log's history.
pub fn history_record(h: &HistoryReport, expected: &Vec<String>) -> (r: Json)
    ensures
        is_record(r, history_cells(*h, texts(expected@))),
{
    let mut f: Record = Record::new();
    f.add_whole("pipelineLogCount", h.pipeline_logs as u64);
    f.add_texts("expectedEventTypes", expected);
    f.add_whole("correlatedPipelineLogCount", h.correlated_logs as u64);
    f.add_whole("externalTranscoderLogCount", h.transcoder_logs as u64);
    f.add_flag("externalTranscoderCorrelated", h.transcoder_correlated);
    f.finish()
}

/// Whether a value is the record of a run: its mode, whether all passed, the records of its
/// scenarios, and the history where that was looked at.
pub open spec fn is_run_record(
    j: Json,
    mode: Seq<char>,
    tests: Seq<Json>,
    history: Option<Json>,
) -> bool {
    j matches Json::Object(f) && f@.len() == (if history is Some {
        4int
    } else {
        3int
    }) && f@[0].0@ == "mode"@ && f@[0].1.as_text() == Some(mode) && f@[1].0@ == "passed"@ && f@[1].1
        == Json::Bool(every_test_passed(tests)) && f@[2].0@ == "tests"@ && f@[2].1.as_list() == Some(
        tests,
    ) && (history matches Some(h) ==> f@[3].0@ == "historyContract"@ && f@[3].1 == h)
}

/// The record of a run.
pub fn run_record(mode: &str, tests: Vec<Json>, history: Option<Json>) -> (r: Json)
    ensures
        is_run_record(r, mode@, tests@, history),
{
    let passed: bool = all_passed(&tests);
    let mut f: Vec<(String, Json)> = Vec::new();
    f.push(("mode".to_string(), Json::Text(mode.to_string())));
    f.push(("passed".to_string(), Json::Bool(passed)));
    f.push(("tests".to_string(), Json::List(tests)));
    if let Some(h) = history {
        f.push(("historyContract".to_string(), h));
    }
    Json::Object(f)
}

// ── Laws ─────────────────────────────────────────────────────────────────────

/// A record whose second field says that a scenario passed, or did not, is read back so.
proof fn lemma_passed_reads_back(j: Json, cells: Seq<(Seq<char>, Cell)>, passed: bool)
    requires
        is_record(j, cells),
        cells.len() >= 2,
        cells[0].0 == "test"@,
        cells[1] == ("passed"@, Cell::Flag(passed)),
    ensures
        j.bool_field("passed"@) == Some(passed),
{
    reveal_strlit("test");
    reveal_strlit("passed");
    if let Json::Object(fields) = j {
        assert(cells_of(fields@).len() == fields@.len());
        assert(cells_of(fields@)[0].0 == fields@[0].0@);
        assert(cells_of(fields@)[1] == (fields@[1].0@, cell_of(fields@[1].1)));
        assert("test"@.len() != "passed"@.len());
        assert(fields@.skip(1)[0] == fields@[1]);
        assert(field_in(fields@, "passed"@) == field_in(fields@.skip(1), "passed"@));
    }
}

/// The verdict of a record is the verdict on what was seen, so that a run passes where its scenarios
/// were survived, and only there.
pub proof fn records_tell_the_verdict(
    j: Json,
    d: PublisherDrop,
    g: RetryGap,
    u: UploadTimeout,
    off_error: Option<Seq<char>>,
    media_error: Option<Seq<char>>,
    status: Seq<char>,
)
    ensures
        is_record(j, rtmp_drop_cells(d)) ==> j.bool_field("passed"@) == Some(drop_survived(d)),
        is_record(j, srt_drop_cells(d, off_error, media_error)) ==> j.bool_field("passed"@) == Some(
            srt_survived(d, off_error, media_error),
        ),
        is_record(j, retry_gap_cells(g, status)) ==> j.bool_field("passed"@) == Some(
            retry_survived(g),
        ),
        is_record(j, upload_timeout_cells(u, status)) ==> j.bool_field("passed"@) == Some(
            upload_survived(u),
        ),
{
    if is_record(j, rtmp_drop_cells(d)) {
        lemma_passed_reads_back(j, rtmp_drop_cells(d), drop_survived(d));
    }
    if is_record(j, srt_drop_cells(d, off_error, media_error)) {
        lemma_passed_reads_back(
            j,
            srt_drop_cells(d, off_error, media_error),
            srt_survived(d, off_error, media_error),
        );
    }
    if is_record(j, retry_gap_cells(g, status)) {
        lemma_passed_reads_back(j, retry_gap_cells(g, status), retry_survived(g));
    }
    if is_record(j, upload_timeout_cells(u, status)) {
        lemma_passed_reads_back(j, upload_timeout_cells(u, status), upload_survived(u));
    }
}

/// The same of what goes away for good.
pub proof fn fault_records_tell_the_verdict(
    j: Json,
    watch: SinkLossWatch,
    back: TargetReturn,
    status: Option<Json>,
    recording: RecordingStop,
    transcoder: TranscoderStop,
    preview: PreviewStop,
    file: FileEnd,
    ms: u64,
)
    ensures
        is_record(j, rtmp_sink_loss_cells(watch, back, status, ms)) ==> j.bool_field("passed"@) == Some(target_came_back(watch@, back, status)),
        is_record(j, srt_sink_loss_cells(watch, status, ms)) ==> j.bool_field("passed"@) == Some(target_is_tried(watch@, status)),
        is_record(j, recording_stop_cells(recording, ms)) ==> j.bool_field("passed"@) == Some(recording.as_expected()),
        is_record(j, transcoder_stop_cells(transcoder, ms)) ==> j.bool_field("passed"@) == Some(transcoder.as_expected()),
        is_record(j, preview_stop_cells(preview, ms)) ==> j.bool_field("passed"@) == Some(preview.as_expected()),
        is_record(j, file_end_cells(file, ms)) ==> j.bool_field("passed"@) == Some(file.as_expected()),
{
    if is_record(j, rtmp_sink_loss_cells(watch, back, status, ms)) {
        lemma_passed_reads_back(j, rtmp_sink_loss_cells(watch, back, status, ms), target_came_back(watch@, back, status));
    }
    if is_record(j, srt_sink_loss_cells(watch, status, ms)) {
        lemma_passed_reads_back(j, srt_sink_loss_cells(watch, status, ms), target_is_tried(watch@, status));
    }
    if is_record(j, recording_stop_cells(recording, ms)) {
        lemma_passed_reads_back(j, recording_stop_cells(recording, ms), recording.as_expected());
    }
    if is_record(j, transcoder_stop_cells(transcoder, ms)) {
        lemma_passed_reads_back(j, transcoder_stop_cells(transcoder, ms), transcoder.as_expected());
    }
    if is_record(j, preview_stop_cells(preview, ms)) {
        lemma_passed_reads_back(j, preview_stop_cells(preview, ms), preview.as_expected());
    }
    if is_record(j, file_end_cells(file, ms)) {
        lemma_passed_reads_back(j, file_end_cells(file, ms), file.as_expected());
    }
}

/// The run of all scenarios makes every other run too, in its order.
pub proof fn resilience_makes_every_scenario()
    ensures
        resilience_faults().subrange(2, 6) == recovery_faults(),
        resilience_faults().subrange(9, 11) == egress_retry_faults(),
        resilience_faults().no_duplicates(),
        forall|fault: Fault| #[trigger] resilience_faults().contains(fault),
{
    let all = resilience_faults();
    assert(all.subrange(2, 6) =~= recovery_faults());
    assert(all.subrange(9, 11) =~= egress_retry_faults());
    assert(all[0] == Fault::RtmpDisconnect && all[1] == Fault::SrtDisconnect);
    assert(all[2] == Fault::RtmpDrop && all[3] == Fault::SrtDrop);
    assert(all[4] == Fault::RetryGap && all[5] == Fault::UploadTimeout);
    assert(all[6] == Fault::FileStop && all[7] == Fault::RecordingStop);
    assert(all[8] == Fault::TranscoderStop && all[9] == Fault::RtmpSinkLoss);
    assert(all[10] == Fault::SrtSinkLoss && all[11] == Fault::PreviewStop);
    assert(all[12] == Fault::FileEnd);
}

/// Whatever scenario is run, it stops the publishers that it starts and closes its sinks.
pub proof fn every_scenario_is_balanced(fault: Fault, p: ScenarioPorts, secs: u64, dir: Seq<char>)
    ensures
        balanced(fault_script(fault, p, secs, dir)),
{
    fault_scripts_are_balanced(p, secs);
    recovery_scripts_are_balanced(p, secs, dir);
}

/// A run of recovery, of retries and of resilience makes its scenarios in this order: resilience
/// makes those of the other two as well, between those of its own.
pub proof fn scenarios_come_in_their_order()
    ensures
        recovery_faults() == seq![
            Fault::RtmpDrop,
            Fault::SrtDrop,
            Fault::RetryGap,
            Fault::UploadTimeout,
        ],
        egress_retry_faults() == seq![Fault::RtmpSinkLoss, Fault::SrtSinkLoss],
        resilience_faults().len() == 13,
        resilience_faults()[0] == Fault::RtmpDisconnect && resilience_faults()[1]
            == Fault::SrtDisconnect,
        resilience_faults().subrange(2, 6) == recovery_faults(),
        resilience_faults()[6] == Fault::FileStop && resilience_faults()[7] == Fault::RecordingStop
            && resilience_faults()[8] == Fault::TranscoderStop,
        resilience_faults().subrange(9, 11) == egress_retry_faults(),
        resilience_faults()[11] == Fault::PreviewStop && resilience_faults()[12] == Fault::FileEnd,
        resilience_faults().no_duplicates(),
{
    assert(resilience_faults().subrange(2, 6) =~= recovery_faults());
    assert(resilience_faults().subrange(9, 11) =~= egress_retry_faults());
}

/// A run has passed exactly when each of its tests has; one that says nothing has not.
pub proof fn one_failed_test_fails_the_run(tests: Seq<Json>, test: Json)
    ensures
        every_test_passed(Seq::<Json>::empty()),
        every_test_passed(tests.push(test)) <==> every_test_passed(tests) && test.bool_field(
            "passed"@,
        ) == Some(true),
{
    if every_test_passed(tests.push(test)) {
        assert forall|i: int| 0 <= i < tests.len() implies (#[trigger] tests[i]).bool_field(
            "passed"@,
        ) == Some(true) by {
            assert(tests.push(test)[i] == tests[i]);
        }
        assert(tests.push(test)[tests.len() as int] == test);
    }
}

/// A record that tells of a pass tells of nothing that speaks against it.
pub proof fn passed_drops_show_nothing_wrong(d: PublisherDrop)
    ensures
        ({
            let c = rtmp_drop_cells(d);
            &&& c[1].0 == "passed"@ && c[1].1 is Flag
            &&& c[1].1 == Cell::Flag(true) ==> c[3].1 == Cell::Whole(1) && c[4].1 == Cell::Whole(1)
                && c[5] == ("gapStatusExists"@, Cell::Flag(true)) && c[6] == (
                "gapStatusRunning"@,
                Cell::Flag(true),
            ) && c[7] == ("gapRetrying"@, Cell::Flag(false)) && c[8] == (
                "gapHasError"@,
                Cell::Flag(false),
            ) && c[9] == ("gapGraceActive"@, Cell::Flag(true)) && c[10] == (
                "gapGraceRemainingBounded"@,
                Cell::Flag(true),
            ) && c[12] == ("resumed"@, Cell::Flag(true)) && c[14] == (
                "finalStatusRunning"@,
                Cell::Flag(true),
            ) && c[15] == ("finalRetrying"@, Cell::Flag(false)) && c[16] == (
                "finalDisconnectCleared"@,
                Cell::Flag(true),
            )
        }),
{
}

/// Each scenario plays its own script.
pub proof fn scenarios_play_their_scripts(p: ScenarioPorts, secs: u64, dir: Seq<char>)
    ensures
        fault_script(Fault::RtmpDrop, p, secs, dir) == rtmp_drop_script(p, secs),
        fault_script(Fault::SrtDrop, p, secs, dir) == srt_drop_script(p, secs),
        fault_script(Fault::RetryGap, p, secs, dir) == retry_gap_script(p, secs),
        fault_script(Fault::UploadTimeout, p, secs, dir) == upload_timeout_script(p, secs, dir),
        fault_script(Fault::RtmpSinkLoss, p, secs, dir) == rtmp_sink_loss_script(p, secs),
        fault_script(Fault::SrtSinkLoss, p, secs, dir) == srt_sink_loss_script(p, secs),
        fault_script(Fault::RtmpDisconnect, p, secs, dir) == rtmp_disconnect_script(p, secs),
        fault_script(Fault::SrtDisconnect, p, secs, dir) == srt_disconnect_script(p, secs),
        fault_script(Fault::FileStop, p, secs, dir) == file_stop_script(secs),
        fault_script(Fault::RecordingStop, p, secs, dir) == recording_stop_script(p, secs),
        fault_script(Fault::TranscoderStop, p, secs, dir) == transcoder_stop_script(p, secs),
        fault_script(Fault::PreviewStop, p, secs, dir) == preview_stop_script(p, secs),
        fault_script(Fault::FileEnd, p, secs, dir) == file_end_script(),
{
}

} // verus!
