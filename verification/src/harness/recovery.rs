//! Scenarios in which a publisher or a target goes away and comes back.
//!
//! A publisher that is lost for a short while must not tear down what is sent on; a target that is
//! lost must be tried again, visibly, until it is back.

use vstd::prelude::*;
use vstd::string::*;

use crate::harness::scenario::{
    balanced, publishers_left, publishers_left_push, sinks_left, sinks_left_push, Moment, Script,
    Step, StepModel,
};
use crate::harness::status::{
    check_error, check_grace_active, check_grace_bounded, check_has_error, check_loss_cleared,
    check_loss_told, check_retry_flag, check_shows_retry, check_status, grace_active, grace_bounded,
    has_error, health_says_retrying, health_shows_retry, known_text, loss_cleared, loss_told,
    output_in, retry_flag, shows_retry, status_is, tells_error, text_or_unknown,
};
use crate::harness::uploads::{content_types_ok, types_told};
use crate::harness::urls::{
    rtmp_address, rtmp_url, srt_address, srt_url, upload_address, upload_url,
};
use crate::json::Json;
use crate::text::{ascii_lower, contains, contains_text, same_text, text_option, to_ascii_lower};

verus! {

/// How many frames show that an output delivers.
pub const ENOUGH_FRAMES: u64 = 10;

/// The ports that scenarios use.
#[derive(Debug, Clone, Copy, PartialEq, Eq, Structural)]
pub struct ScenarioPorts {
    pub rtmp: u16,
    pub srt: u16,
    pub sink: u16,
    pub upload: u16,
}

// ── Watching a retry ─────────────────────────────────────────────────────────

/// What has been seen of an output whose target was lost.
#[derive(Debug)]
pub struct SinkLossWatch {
    /// Enough has been seen.
    pub passed: bool,
    pub phase: String,
    pub has_error: bool,
    pub saw_retrying: bool,
    pub health_saw_retrying: bool,
    pub retry_attempts: Option<u64>,
    pub retry_backoff_ms: Option<u64>,
}

/// What a [`SinkLossWatch`] says.
pub struct SinkLossModel {
    pub passed: bool,
    pub phase: Seq<char>,
    pub has_error: bool,
    pub saw_retrying: bool,
    pub health_saw_retrying: bool,
    pub retry_attempts: Option<u64>,
    pub retry_backoff_ms: Option<u64>,
}

impl View for SinkLossWatch {
    type V = SinkLossModel;

    open spec fn view(&self) -> SinkLossModel {
        SinkLossModel {
            passed: self.passed,
            phase: self.phase@,
            has_error: self.has_error,
            saw_retrying: self.saw_retrying,
            health_saw_retrying: self.health_saw_retrying,
            retry_attempts: self.retry_attempts,
            retry_backoff_ms: self.retry_backoff_ms,
        }
    }
}

impl SinkLossModel {
    /// Nothing has been seen yet.
    pub open spec fn start() -> SinkLossModel {
        SinkLossModel {
            passed: false,
            phase: "unknown"@,
            has_error: false,
            saw_retrying: false,
            health_saw_retrying: false,
            retry_attempts: None,
            retry_backoff_ms: None,
        }
    }

    /// What has been seen once the server has been asked again. An output that is gone is cleaned
    /// up, and that is enough; so is one that is being retried and tells of an error.
    pub open spec fn after(
        self,
        status: Option<Json>,
        health: Option<Json>,
        pipeline: Seq<char>,
        output: Seq<char>,
    ) -> SinkLossModel {
        match status {
            None => SinkLossModel { passed: true, phase: "cleaned-up"@, ..self },
            Some(s) => {
                let retrying = s.has_text("status"@, "retrying"@);
                let saw = self.saw_retrying || retrying;
                SinkLossModel {
                    passed: self.passed || (saw && tells_error(s)),
                    phase: known_text(s, "phase"@),
                    has_error: tells_error(s),
                    saw_retrying: saw,
                    health_saw_retrying: self.health_saw_retrying || (health matches Some(h)
                        && output_in(h, pipeline, output).has_text("status"@, "retrying"@)),
                    retry_attempts: if retrying {
                        s.u64_field("retryAttempts"@)
                    } else {
                        self.retry_attempts
                    },
                    retry_backoff_ms: if retrying {
                        s.u64_field("retryBackoffMs"@)
                    } else {
                        self.retry_backoff_ms
                    },
                }
            },
        }
    }
}

impl SinkLossWatch {
    pub fn new() -> (r: Self)
        ensures
            r@ == SinkLossModel::start(),
    {
        SinkLossWatch {
            passed: false,
            phase: "unknown".to_string(),
            has_error: false,
            saw_retrying: false,
            health_saw_retrying: false,
            retry_attempts: None,
            retry_backoff_ms: None,
        }
    }

    /// Takes in one more answer of the server, and says whether enough has been seen.
    pub fn observe(
        &mut self,
        status: &Option<Json>,
        health: &Option<Json>,
        pipeline: &str,
        output: &str,
    ) -> (r: bool)
        ensures
            final(self)@ == old(self)@.after(*status, *health, pipeline@, output@),
            r == final(self)@.passed,
    {
        match status {
            None => {
                self.phase = "cleaned-up".to_string();
                self.passed = true;
            },
            Some(s) => {
                self.has_error = check_error(s);
                self.phase = text_or_unknown(s, "phase");
                if s.text_is("status", "retrying") {
                    self.saw_retrying = true;
                    self.retry_attempts = s.get_u64("retryAttempts");
                    self.retry_backoff_ms = s.get_u64("retryBackoffMs");
                }
                if let Some(h) = health {
                    if health_says_retrying(h, pipeline, output) {
                        self.health_saw_retrying = true;
                    }
                }
                if self.saw_retrying && self.has_error {
                    self.passed = true;
                }
            },
        }
        self.passed
    }
}

/// What is seen of an output that is being retried, by the latest answers.
#[derive(Debug)]
pub struct RetryWatch {
    pub phase: String,
    pub failure_phase: String,
    pub error: String,
    pub status_visible: bool,
    pub health_visible: bool,
    pub retry_attempts: Option<u64>,
    pub retry_backoff_ms: Option<u64>,
}

/// What a [`RetryWatch`] says.
pub struct RetryModel {
    pub phase: Seq<char>,
    pub failure_phase: Seq<char>,
    pub error: Seq<char>,
    pub status_visible: bool,
    pub health_visible: bool,
    pub retry_attempts: Option<u64>,
    pub retry_backoff_ms: Option<u64>,
}

impl View for RetryWatch {
    type V = RetryModel;

    open spec fn view(&self) -> RetryModel {
        RetryModel {
            phase: self.phase@,
            failure_phase: self.failure_phase@,
            error: self.error@,
            status_visible: self.status_visible,
            health_visible: self.health_visible,
            retry_attempts: self.retry_attempts,
            retry_backoff_ms: self.retry_backoff_ms,
        }
    }
}

/// The error that a status tells of, or nothing.
pub open spec fn error_text(s: Json) -> Seq<char> {
    match s.text_field("lastError"@) {
        Some(t) => t,
        None => ""@,
    }
}

impl RetryModel {
    /// Nothing has been seen yet.
    pub open spec fn start() -> RetryModel {
        RetryModel {
            phase: "unknown"@,
            failure_phase: "unknown"@,
            error: ""@,
            status_visible: false,
            health_visible: false,
            retry_attempts: None,
            retry_backoff_ms: None,
        }
    }

    /// Whether an error is told of.
    pub open spec fn tells(self) -> bool {
        self.error.len() > 0
    }

    /// Whether the retry shows in the status and in the health, with its error.
    pub open spec fn complete(self) -> bool {
        self.status_visible && self.health_visible && self.tells()
    }

    /// What is seen once the server has been asked again; an answer that did not come changes
    /// nothing.
    pub open spec fn after(
        self,
        status: Option<Json>,
        health: Option<Json>,
        pipeline: Seq<char>,
        output: Seq<char>,
    ) -> RetryModel {
        let a = match status {
            Some(s) => RetryModel {
                phase: known_text(s, "phase"@),
                failure_phase: known_text(s, "failurePhase"@),
                error: error_text(s),
                status_visible: shows_retry(s),
                retry_attempts: if shows_retry(s) {
                    s.u64_field("retryAttempts"@)
                } else {
                    self.retry_attempts
                },
                retry_backoff_ms: if shows_retry(s) {
                    s.u64_field("retryBackoffMs"@)
                } else {
                    self.retry_backoff_ms
                },
                health_visible: self.health_visible,
            },
            None => self,
        };
        match health {
            Some(h) => RetryModel {
                health_visible: shows_retry(output_in(h, pipeline, output)),
                ..a
            },
            None => a,
        }
    }
}

impl RetryWatch {
    pub fn new() -> (r: Self)
        ensures
            r@ == RetryModel::start(),
    {
        RetryWatch {
            phase: "unknown".to_string(),
            failure_phase: "unknown".to_string(),
            error: "".to_string(),
            status_visible: false,
            health_visible: false,
            retry_attempts: None,
            retry_backoff_ms: None,
        }
    }

    /// Takes in one more answer of the server, and says whether enough is seen.
    pub fn observe(
        &mut self,
        status: &Option<Json>,
        health: &Option<Json>,
        pipeline: &str,
        output: &str,
    ) -> (r: bool)
        ensures
            final(self)@ == old(self)@.after(*status, *health, pipeline@, output@),
            r == final(self)@.complete(),
    {
        if let Some(s) = status {
            self.phase = text_or_unknown(s, "phase");
            self.failure_phase = text_or_unknown(s, "failurePhase");
            self.error = match s.get_text("lastError") {
                Some(t) => t.to_string(),
                None => "".to_string(),
            };
            self.status_visible = check_shows_retry(s);
            if self.status_visible {
                self.retry_attempts = s.get_u64("retryAttempts");
                self.retry_backoff_ms = s.get_u64("retryBackoffMs");
            }
        }
        if let Some(h) = health {
            self.health_visible = health_shows_retry(h, pipeline, output);
        }
        self.status_visible && self.health_visible && !self.error.as_str().is_empty()
    }
}

/// Whether a status shows an output that runs again and delivers.
pub open spec fn runs_again(s: Json) -> bool {
    s.has_text("status"@, "running"@) && s.bool_field("retrying"@) != Some(true) && (s.u64_field(
        "bytesOut"@,
    ) matches Some(n) && n > 0)
}

/// Whether a status shows an output that runs again and delivers.
pub fn check_runs_again(s: &Json) -> (r: bool)
    ensures
        r == runs_again(*s),
{
    let retrying: bool = match s.get_bool("retrying") {
        Some(b) => b,
        None => false,
    };
    let delivers: bool = match s.get_u64("bytesOut") {
        Some(n) => n > 0,
        None => false,
    };
    s.text_is("status", "running") && !retrying && delivers
}

// ── A publisher is lost for a short while ────────────────────────────────────

/// What was seen of an output while its publisher was lost and after it came back.
#[derive(Debug)]
pub struct PublisherDrop {
    /// Before the loss: frames and connections of the sink.
    pub baseline_video: u64,
    pub baseline_connections: u64,
    /// While the publisher was gone.
    pub gap_connections: u64,
    pub gap_status: Option<Json>,
    pub gap_input: Json,
    /// Frames came again.
    pub resumed: bool,
    /// At the end.
    pub final_connections: u64,
    pub final_status: Option<Json>,
    pub final_input: Json,
}

/// Whether the output was left alone while the publisher was gone.
pub open spec fn gap_preserved(d: PublisherDrop) -> bool {
    &&& d.gap_status is Some
    &&& d.gap_connections == d.baseline_connections
    &&& status_is(d.gap_status, "running"@)
    &&& !retry_flag(d.gap_status)
    &&& !has_error(d.gap_status)
    &&& grace_active(d.gap_input)
    &&& grace_bounded(d.gap_input)
}

/// Whether the output goes on as before over the same connection, and the loss is forgotten.
pub open spec fn drop_survived(d: PublisherDrop) -> bool {
    &&& d.baseline_video >= ENOUGH_FRAMES
    &&& d.baseline_connections == 1
    &&& gap_preserved(d)
    &&& d.resumed
    &&& d.final_connections == d.baseline_connections
    &&& status_is(d.final_status, "running"@)
    &&& !retry_flag(d.final_status)
    &&& loss_cleared(d.final_input)
}

/// Whether the output was left alone while the publisher was gone.
pub fn check_gap_preserved(d: &PublisherDrop) -> (r: bool)
    ensures
        r == gap_preserved(*d),
{
    d.gap_status.is_some() && d.gap_connections == d.baseline_connections && check_status(
        &d.gap_status,
        "running",
    ) && !check_retry_flag(&d.gap_status) && !check_has_error(&d.gap_status) && check_grace_active(
        &d.gap_input,
    ) && check_grace_bounded(&d.gap_input)
}

/// Whether an RTMP publisher that was lost for a short while left the output alone.
pub fn rtmp_drop_survived(d: &PublisherDrop) -> (r: bool)
    ensures
        r == drop_survived(*d),
{
    d.baseline_video >= ENOUGH_FRAMES && d.baseline_connections == 1 && check_gap_preserved(d)
        && d.resumed && d.final_connections == d.baseline_connections && check_status(
        &d.final_status,
        "running",
    ) && !check_retry_flag(&d.final_status) && check_loss_cleared(&d.final_input)
}

/// Whether the input was seen off: it was awaited without an error, and says so.
pub open spec fn seen_off(d: PublisherDrop, off_error: Option<Seq<char>>) -> bool {
    off_error is None && d.gap_input.has_text("status"@, "off"@)
}

/// Whether the input was seen off.
pub fn check_seen_off(d: &PublisherDrop, off_error: &Option<String>) -> (r: bool)
    ensures
        r == seen_off(*d, text_option(*off_error)),
{
    off_error.is_none() && d.gap_input.text_is("status", "off")
}

/// Whether the output goes on as before, the input was seen off in between, and its media were
/// ready again.
pub open spec fn srt_survived(
    d: PublisherDrop,
    off_error: Option<Seq<char>>,
    media_error: Option<Seq<char>>,
) -> bool {
    drop_survived(d) && seen_off(d, off_error) && media_error is None
}

/// Whether an SRT publisher that was lost for a short while left the output alone. Here the input
/// has to be seen off in between, and its media ready again; waiting for either may have failed.
pub fn srt_drop_survived(
    d: &PublisherDrop,
    off_error: &Option<String>,
    media_error: &Option<String>,
) -> (r: bool)
    ensures
        r == srt_survived(*d, text_option(*off_error), text_option(*media_error)),
{
    rtmp_drop_survived(d) && check_seen_off(d, off_error) && media_error.is_none()
}

// ── A target is lost, and then the publisher too ─────────────────────────────

/// What was seen of an output whose target was lost, and then its publisher, and then both were
/// back.
#[derive(Debug)]
pub struct RetryGap {
    pub baseline_video: u64,
    /// While the target was lost.
    pub retry: RetryWatch,
    /// What went wrong while the input was awaited to go off.
    pub off_error: Option<String>,
    /// While both were lost.
    pub gap_status: Option<Json>,
    pub gap_output: Json,
    pub gap_input: Json,
    /// After both were back: what went wrong while the media were awaited.
    pub media_error: Option<String>,
    pub recovered: bool,
    pub final_status: Option<Json>,
    pub final_input: Json,
}

/// Whether the retry went on through the gap, and the output came back.
pub open spec fn retry_survived(g: RetryGap) -> bool {
    &&& g.baseline_video >= ENOUGH_FRAMES
    &&& g.retry@.complete()
    &&& g.off_error is None
    &&& g.gap_status matches Some(s) && shows_retry(s)
    &&& shows_retry(g.gap_output)
    &&& g.gap_input.has_text("status"@, "off"@) && loss_told(g.gap_input, "rtmp"@)
    &&& grace_active(g.gap_input)
    &&& grace_bounded(g.gap_input)
    &&& g.media_error is None
    &&& g.recovered
    &&& status_is(g.final_status, "running"@)
    &&& !retry_flag(g.final_status)
    &&& loss_cleared(g.final_input)
}

/// Whether the retry went on through the gap, and the output came back.
pub fn retry_gap_survived(g: &RetryGap) -> (r: bool)
    ensures
        r == retry_survived(*g),
{
    let gap_retrying: bool = match &g.gap_status {
        Some(s) => check_shows_retry(s),
        None => false,
    };
    g.baseline_video >= ENOUGH_FRAMES && g.retry.status_visible && g.retry.health_visible
        && !g.retry.error.as_str().is_empty() && g.off_error.is_none() && gap_retrying && check_shows_retry(
        &g.gap_output,
    ) && g.gap_input.text_is("status", "off") && check_loss_told(&g.gap_input, "rtmp")
        && check_grace_active(&g.gap_input) && check_grace_bounded(&g.gap_input)
        && g.media_error.is_none()
        && g.recovered && check_status(&g.final_status, "running") && !check_retry_flag(
        &g.final_status,
    ) && check_loss_cleared(&g.final_input)
}

// ── An upload hangs ──────────────────────────────────────────────────────────

/// What was seen of an upload whose target did not answer, and then did.
#[derive(Debug)]
pub struct UploadTimeout {
    pub retry: RetryWatch,
    pub artifacts_found: bool,
    /// The requests of the target that answered, where they could be read.
    pub requests: Option<Vec<Json>>,
    pub recovered: bool,
    pub final_status: Option<Json>,
    pub final_bytes_out: u64,
}

/// Whether an error tells of a time that ran out.
pub open spec fn tells_timeout(error: Seq<char>) -> bool {
    contains(ascii_lower(error), "timed out"@) || contains(ascii_lower(error), "deadline"@)
}

/// Whether an upload failed while it was sending.
pub open spec fn is_upload_phase(phase: Seq<char>) -> bool {
    phase == "upload_segment"@ || phase == "upload_playlist"@
}

/// Whether the hanging target was given up in time, and the upload came back.
pub open spec fn upload_survived(u: UploadTimeout) -> bool {
    &&& u.retry@.complete()
    &&& tells_timeout(u.retry@.error)
    &&& u.retry@.phase == "failed"@
    &&& is_upload_phase(u.retry@.failure_phase)
    &&& u.artifacts_found
    &&& u.requests matches Some(requests) && types_told(requests@)
    &&& u.recovered
    &&& status_is(u.final_status, "running"@)
    &&& !retry_flag(u.final_status)
    &&& u.final_status matches Some(s) && s.lacks("lastError"@)
    &&& u.final_bytes_out > 0
}

/// Whether an error tells of a time that ran out.
pub fn check_tells_timeout(error: &str) -> (r: bool)
    ensures
        r == tells_timeout(error@),
{
    let lower: String = to_ascii_lower(error);
    contains_text(lower.as_str(), "timed out") || contains_text(lower.as_str(), "deadline")
}

/// Whether the hanging target was given up in time, and the upload came back.
pub fn upload_timeout_survived(u: &UploadTimeout) -> (r: bool)
    ensures
        r == upload_survived(*u),
{
    let types_ok: bool = match &u.requests {
        Some(requests) => content_types_ok(requests),
        None => false,
    };
    let error_cleared: bool = match &u.final_status {
        Some(s) => s.is_absent("lastError"),
        None => false,
    };
    let phase: &str = u.retry.failure_phase.as_str();
    u.retry.status_visible && u.retry.health_visible && !u.retry.error.as_str().is_empty()
        && check_tells_timeout(u.retry.error.as_str()) && same_text(
        u.retry.phase.as_str(),
        "failed",
    ) && (same_text(phase, "upload_segment") || same_text(phase, "upload_playlist"))
        && u.artifacts_found && types_ok && u.recovered && check_status(&u.final_status, "running")
        && !check_retry_flag(&u.final_status) && error_cleared && u.final_bytes_out > 0
}

// ── Scripts ──────────────────────────────────────────────────────────────────

/// An RTMP publisher is lost for a short while.
pub open spec fn rtmp_drop_script(p: ScenarioPorts, secs: u64) -> Seq<StepModel> {
    let url = rtmp_address(p.rtmp, "fault-rtmp-transient"@);
    Seq::empty().push(
        StepModel::CreatePipeline { name: "fault-rtmp-transient"@ },
    ).push(
        StepModel::OpenSink { port: p.sink },
    ).push(
        StepModel::CreateOutput { name: "rtmp-transient-sink"@, url: rtmp_address(p.sink, "fault-rtmp-transient-sink"@), encoding: "source"@ },
    ).push(
        StepModel::Publish { url, format: "flv"@, all_streams: false },
    ).push(
        StepModel::AwaitLive { secs },
    ).push(
        StepModel::StartOutput,
    ).push(
        StepModel::AwaitFrames { frames: ENOUGH_FRAMES, secs: 15, poll_ms: 200 },
    ).push(
        StepModel::NoteBaseline,
    ).push(
        StepModel::StopPublisher,
    ).push(
        StepModel::Pause { ms: 2_500 },
    ).push(
        StepModel::ReadStatus { at: Moment::Gap },
    ).push(
        StepModel::ReadHealth { at: Moment::Gap },
    ).push(
        StepModel::Publish { url, format: "flv"@, all_streams: false },
    ).push(
        StepModel::AwaitLive { secs: 30 },
    ).push(
        StepModel::AwaitMoreFrames { frames: ENOUGH_FRAMES, secs: 15, poll_ms: 200 },
    ).push(
        StepModel::ReadStatus { at: Moment::End },
    ).push(
        StepModel::ReadHealth { at: Moment::End },
    ).push(
        StepModel::Judge,
    ).push(
        StepModel::StopOutput,
    ).push(
        StepModel::StopPublisher,
    ).push(
        StepModel::CloseSink,
    )
}

/// An RTMP publisher is lost for a short while.
pub fn plan_rtmp_drop(p: ScenarioPorts, secs: u64) -> (r: Script)
    ensures
        r@ == rtmp_drop_script(p, secs),
{
    let url: String = rtmp_url(p.rtmp, "fault-rtmp-transient");
    let mut s: Script = Script::new();
    s.add_step(Step::CreatePipeline { name: "fault-rtmp-transient".to_string() });
    s.add_step(Step::OpenSink { port: p.sink });
    s.add_step(Step::CreateOutput { name: "rtmp-transient-sink".to_string(), url: rtmp_url(p.sink, "fault-rtmp-transient-sink"), encoding: "source".to_string() });
    s.add_step(Step::Publish { url: url.clone(), format: "flv", all_streams: false });
    s.add_step(Step::AwaitLive { secs });
    s.add_step(Step::StartOutput);
    s.add_step(Step::AwaitFrames { frames: ENOUGH_FRAMES, secs: 15, poll_ms: 200 });
    s.add_step(Step::NoteBaseline);
    s.add_step(Step::StopPublisher);
    s.add_step(Step::Pause { ms: 2_500 });
    s.add_step(Step::ReadStatus { at: Moment::Gap });
    s.add_step(Step::ReadHealth { at: Moment::Gap });
    s.add_step(Step::Publish { url: url.clone(), format: "flv", all_streams: false });
    s.add_step(Step::AwaitLive { secs: 30 });
    s.add_step(Step::AwaitMoreFrames { frames: ENOUGH_FRAMES, secs: 15, poll_ms: 200 });
    s.add_step(Step::ReadStatus { at: Moment::End });
    s.add_step(Step::ReadHealth { at: Moment::End });
    s.add_step(Step::Judge);
    s.add_step(Step::StopOutput);
    s.add_step(Step::StopPublisher);
    s.add_step(Step::CloseSink);
    s
}

/// An SRT publisher is lost for a short while. It comes back only once the input is off, so that it
/// does not meet its own former session.
pub open spec fn srt_drop_script(p: ScenarioPorts, secs: u64) -> Seq<StepModel> {
    let url = srt_address(p.srt, "fault-srt-transient"@);
    Seq::empty().push(
        StepModel::CreatePipeline { name: "fault-srt-transient"@ },
    ).push(
        StepModel::OpenSink { port: p.sink },
    ).push(
        StepModel::CreateOutput { name: "srt-transient-sink"@, url: rtmp_address(p.sink, "fault-srt-transient-sink"@), encoding: "source"@ },
    ).push(
        StepModel::Publish { url, format: "mpegts"@, all_streams: true },
    ).push(
        StepModel::AwaitLive { secs },
    ).push(
        StepModel::StartOutput,
    ).push(
        StepModel::AwaitFrames { frames: ENOUGH_FRAMES, secs: 15, poll_ms: 200 },
    ).push(
        StepModel::NoteBaseline,
    ).push(
        StepModel::StopPublisher,
    ).push(
        StepModel::AwaitOff { secs: 10 },
    ).push(
        StepModel::ReadHealth { at: Moment::Gap },
    ).push(
        StepModel::ReadStatus { at: Moment::Gap },
    ).push(
        StepModel::Publish { url, format: "mpegts"@, all_streams: true },
    ).push(
        StepModel::AwaitMediaReady { secs: 30 },
    ).push(
        StepModel::AwaitMoreFrames { frames: ENOUGH_FRAMES, secs: 15, poll_ms: 200 },
    ).push(
        StepModel::ReadStatus { at: Moment::End },
    ).push(
        StepModel::ReadHealth { at: Moment::End },
    ).push(
        StepModel::Judge,
    ).push(
        StepModel::StopOutput,
    ).push(
        StepModel::StopPublisher,
    ).push(
        StepModel::CloseSink,
    )
}

/// An SRT publisher is lost for a short while. It comes back only once the input is off, so that it
/// does not meet its own former session.
pub fn plan_srt_drop(p: ScenarioPorts, secs: u64) -> (r: Script)
    ensures
        r@ == srt_drop_script(p, secs),
{
    let url: String = srt_url(p.srt, "fault-srt-transient");
    let mut s: Script = Script::new();
    s.add_step(Step::CreatePipeline { name: "fault-srt-transient".to_string() });
    s.add_step(Step::OpenSink { port: p.sink });
    s.add_step(Step::CreateOutput { name: "srt-transient-sink".to_string(), url: rtmp_url(p.sink, "fault-srt-transient-sink"), encoding: "source".to_string() });
    s.add_step(Step::Publish { url: url.clone(), format: "mpegts", all_streams: true });
    s.add_step(Step::AwaitLive { secs });
    s.add_step(Step::StartOutput);
    s.add_step(Step::AwaitFrames { frames: ENOUGH_FRAMES, secs: 15, poll_ms: 200 });
    s.add_step(Step::NoteBaseline);
    s.add_step(Step::StopPublisher);
    s.add_step(Step::AwaitOff { secs: 10 });
    s.add_step(Step::ReadHealth { at: Moment::Gap });
    s.add_step(Step::ReadStatus { at: Moment::Gap });
    s.add_step(Step::Publish { url: url.clone(), format: "mpegts", all_streams: true });
    s.add_step(Step::AwaitMediaReady { secs: 30 });
    s.add_step(Step::AwaitMoreFrames { frames: ENOUGH_FRAMES, secs: 15, poll_ms: 200 });
    s.add_step(Step::ReadStatus { at: Moment::End });
    s.add_step(Step::ReadHealth { at: Moment::End });
    s.add_step(Step::Judge);
    s.add_step(Step::StopOutput);
    s.add_step(Step::StopPublisher);
    s.add_step(Step::CloseSink);
    s
}

/// A target is lost, then the publisher, then both come back.
pub open spec fn retry_gap_script(p: ScenarioPorts, secs: u64) -> Seq<StepModel> {
    let url = rtmp_address(p.rtmp, "fault-rtmp-retry-gap"@);
    Seq::empty().push(
        StepModel::CreatePipeline { name: "fault-rtmp-retry-gap"@ },
    ).push(
        StepModel::OpenSink { port: p.sink },
    ).push(
        StepModel::CreateOutput { name: "rtmp-retry-gap-sink"@, url: rtmp_address(p.sink, "fault-rtmp-retry-gap-sink"@), encoding: "source"@ },
    ).push(
        StepModel::Publish { url, format: "flv"@, all_streams: false },
    ).push(
        StepModel::AwaitLive { secs },
    ).push(
        StepModel::StartOutput,
    ).push(
        StepModel::AwaitFrames { frames: ENOUGH_FRAMES, secs: 15, poll_ms: 200 },
    ).push(
        StepModel::NoteBaseline,
    ).push(
        StepModel::CloseSink,
    ).push(
        StepModel::WatchRetry { secs: 10, poll_ms: 500 },
    ).push(
        StepModel::StopPublisher,
    ).push(
        StepModel::AwaitOff { secs: 10 },
    ).push(
        StepModel::Pause { ms: 1_500 },
    ).push(
        StepModel::ReadStatus { at: Moment::Gap },
    ).push(
        StepModel::ReadHealth { at: Moment::Gap },
    ).push(
        StepModel::OpenSink { port: p.sink },
    ).push(
        StepModel::Publish { url, format: "flv"@, all_streams: false },
    ).push(
        StepModel::AwaitMediaReady { secs: 30 },
    ).push(
        StepModel::AwaitFrames { frames: ENOUGH_FRAMES, secs: 25, poll_ms: 500 },
    ).push(
        StepModel::ReadStatus { at: Moment::End },
    ).push(
        StepModel::ReadHealth { at: Moment::End },
    ).push(
        StepModel::Judge,
    ).push(
        StepModel::CloseSink,
    ).push(
        StepModel::StopOutput,
    ).push(
        StepModel::StopPublisher,
    )
}

/// A target is lost, then the publisher, then both come back.
pub fn plan_retry_gap(p: ScenarioPorts, secs: u64) -> (r: Script)
    ensures
        r@ == retry_gap_script(p, secs),
{
    let url: String = rtmp_url(p.rtmp, "fault-rtmp-retry-gap");
    let mut s: Script = Script::new();
    s.add_step(Step::CreatePipeline { name: "fault-rtmp-retry-gap".to_string() });
    s.add_step(Step::OpenSink { port: p.sink });
    s.add_step(Step::CreateOutput { name: "rtmp-retry-gap-sink".to_string(), url: rtmp_url(p.sink, "fault-rtmp-retry-gap-sink"), encoding: "source".to_string() });
    s.add_step(Step::Publish { url: url.clone(), format: "flv", all_streams: false });
    s.add_step(Step::AwaitLive { secs });
    s.add_step(Step::StartOutput);
    s.add_step(Step::AwaitFrames { frames: ENOUGH_FRAMES, secs: 15, poll_ms: 200 });
    s.add_step(Step::NoteBaseline);
    s.add_step(Step::CloseSink);
    s.add_step(Step::WatchRetry { secs: 10, poll_ms: 500 });
    s.add_step(Step::StopPublisher);
    s.add_step(Step::AwaitOff { secs: 10 });
    s.add_step(Step::Pause { ms: 1_500 });
    s.add_step(Step::ReadStatus { at: Moment::Gap });
    s.add_step(Step::ReadHealth { at: Moment::Gap });
    s.add_step(Step::OpenSink { port: p.sink });
    s.add_step(Step::Publish { url: url.clone(), format: "flv", all_streams: false });
    s.add_step(Step::AwaitMediaReady { secs: 30 });
    s.add_step(Step::AwaitFrames { frames: ENOUGH_FRAMES, secs: 25, poll_ms: 500 });
    s.add_step(Step::ReadStatus { at: Moment::End });
    s.add_step(Step::ReadHealth { at: Moment::End });
    s.add_step(Step::Judge);
    s.add_step(Step::CloseSink);
    s.add_step(Step::StopOutput);
    s.add_step(Step::StopPublisher);
    s
}

/// The target of an upload does not answer, and then another one at the same place does.
pub open spec fn upload_timeout_script(p: ScenarioPorts, secs: u64, dir: Seq<char>) -> Seq<StepModel> {
    let url = rtmp_address(p.rtmp, "fault-hls-put-timeout"@);
    Seq::empty().push(
        StepModel::CreatePipeline { name: "fault-hls-put-timeout"@ },
    ).push(
        StepModel::OpenHangingUploadSink { port: p.upload, secs: 30 },
    ).push(
        StepModel::CreateOutput { name: "hls-put-timeout"@, url: upload_address(p.upload, "fault-hls-put-timeout"@), encoding: "source"@ },
    ).push(
        StepModel::Publish { url, format: "flv"@, all_streams: false },
    ).push(
        StepModel::AwaitLive { secs },
    ).push(
        StepModel::StartOutput,
    ).push(
        StepModel::WatchRetry { secs: 20, poll_ms: 500 },
    ).push(
        StepModel::CloseUploadSink,
    ).push(
        StepModel::OpenUploadSink { port: p.upload, dir },
    ).push(
        StepModel::AwaitUploads { secs: 30 },
    ).push(
        StepModel::ReadUploadRequests,
    ).push(
        StepModel::AwaitRunning { secs: 20, poll_ms: 500 },
    ).push(
        StepModel::ReadStatus { at: Moment::End },
    ).push(
        StepModel::Judge,
    ).push(
        StepModel::StopOutput,
    ).push(
        StepModel::StopPublisher,
    ).push(
        StepModel::CloseUploadSink,
    )
}

/// The target of an upload does not answer, and then another one at the same place does.
pub fn plan_upload_timeout(p: ScenarioPorts, secs: u64, dir: &str) -> (r: Script)
    ensures
        r@ == upload_timeout_script(p, secs, dir@),
{
    let url: String = rtmp_url(p.rtmp, "fault-hls-put-timeout");
    let mut s: Script = Script::new();
    s.add_step(Step::CreatePipeline { name: "fault-hls-put-timeout".to_string() });
    s.add_step(Step::OpenHangingUploadSink { port: p.upload, secs: 30 });
    s.add_step(Step::CreateOutput { name: "hls-put-timeout".to_string(), url: upload_url(p.upload, "fault-hls-put-timeout"), encoding: "source".to_string() });
    s.add_step(Step::Publish { url: url.clone(), format: "flv", all_streams: false });
    s.add_step(Step::AwaitLive { secs });
    s.add_step(Step::StartOutput);
    s.add_step(Step::WatchRetry { secs: 20, poll_ms: 500 });
    s.add_step(Step::CloseUploadSink);
    s.add_step(Step::OpenUploadSink { port: p.upload, dir: dir.to_string() });
    s.add_step(Step::AwaitUploads { secs: 30 });
    s.add_step(Step::ReadUploadRequests);
    s.add_step(Step::AwaitRunning { secs: 20, poll_ms: 500 });
    s.add_step(Step::ReadStatus { at: Moment::End });
    s.add_step(Step::Judge);
    s.add_step(Step::StopOutput);
    s.add_step(Step::StopPublisher);
    s.add_step(Step::CloseUploadSink);
    s
}

// ── Laws ─────────────────────────────────────────────────────────────────────

/// Every one of these scenarios stops the publishers that it starts, and closes its sinks.
pub proof fn recovery_scripts_are_balanced(p: ScenarioPorts, secs: u64, dir: Seq<char>)
    ensures
        balanced(rtmp_drop_script(p, secs)),
        balanced(srt_drop_script(p, secs)),
        balanced(retry_gap_script(p, secs)),
        balanced(upload_timeout_script(p, secs, dir)),
{
    broadcast use {publishers_left_push, sinks_left_push};

    assert(publishers_left(Seq::<StepModel>::empty()) == 0);
    assert(sinks_left(Seq::<StepModel>::empty()) == 0);
}

/// A watch that has seen enough keeps having seen enough, whatever comes after.
pub proof fn seen_enough_stays(
    m: SinkLossModel,
    status: Option<Json>,
    health: Option<Json>,
    pipeline: Seq<char>,
    output: Seq<char>,
)
    ensures
        m.passed ==> m.after(status, health, pipeline, output).passed,
        m.saw_retrying ==> m.after(status, health, pipeline, output).saw_retrying,
        m.health_saw_retrying ==> m.after(status, health, pipeline, output).health_saw_retrying,
{
}

/// An answer that did not come leaves what was seen of a retry as it was.
pub proof fn silence_changes_nothing(m: RetryModel, pipeline: Seq<char>, output: Seq<char>)
    ensures
        m.after(None, None, pipeline, output) == m,
{
}

/// An output that was stopped, retried or reconnected while the publisher was gone did not survive
/// the loss.
pub proof fn disturbed_output_does_not_survive(d: PublisherDrop)
    ensures
        retry_flag(d.gap_status) || has_error(d.gap_status) || !status_is(
            d.gap_status,
            "running"@,
        ) || d.gap_connections != d.baseline_connections || d.final_connections
            != d.baseline_connections ==> !drop_survived(d),
{
}

/// What a watch over a lost sink has seen, after looks at the status of the output and the health of
/// the server.
pub open spec fn watched_loss(
    looks: Seq<(Option<Json>, Option<Json>)>,
    pipeline: Seq<char>,
    output: Seq<char>,
) -> SinkLossModel
    decreases looks.len(),
{
    if looks.len() == 0 {
        SinkLossModel::start()
    } else {
        watched_loss(looks.drop_last(), pipeline, output).after(
            looks.last().0,
            looks.last().1,
            pipeline,
            output,
        )
    }
}

/// Whether a look found the output retrying.
pub open spec fn found_retrying(look: (Option<Json>, Option<Json>)) -> bool {
    look.0 is Some && look.0->0.text_field("status"@) == Some("retrying"@)
}

/// Whether a look found an error that is not empty.
pub open spec fn found_error(look: (Option<Json>, Option<Json>)) -> bool {
    look.0 is Some && look.0->0.text_field("lastError"@) is Some && look.0->0.text_field(
        "lastError"@,
    )->0.len() > 0
}

/// A watch over a lost sink passes exactly when at some look the output was gone, or told an error
/// once it had been found retrying; it saw a retry exactly when some look did.
pub proof fn loss_is_passed_by_what_was_seen(
    looks: Seq<(Option<Json>, Option<Json>)>,
    pipeline: Seq<char>,
    output: Seq<char>,
)
    ensures
        watched_loss(looks, pipeline, output).saw_retrying <==> exists|i: int|
            0 <= i < looks.len() && found_retrying(#[trigger] looks[i]),
        watched_loss(looks, pipeline, output).passed <==> exists|i: int|
            0 <= i < looks.len() && ((#[trigger] looks[i]).0 is None || (found_error(looks[i])
                && exists|j: int| 0 <= j <= i && found_retrying(#[trigger] looks[j]))),
    decreases looks.len(),
{
    if looks.len() > 0 {
        let front = looks.drop_last();
        loss_is_passed_by_what_was_seen(front, pipeline, output);
        let (w, m) = (watched_loss(looks, pipeline, output), watched_loss(front, pipeline, output));
        let n = front.len() as int;
        assert(looks[n] == looks.last());
        assert forall|i: int| 0 <= i < n implies #[trigger] looks[i] == front[i] by {}
        if m.saw_retrying {
            let i = choose|i: int| 0 <= i < front.len() && found_retrying(#[trigger] front[i]);
            assert(found_retrying(looks[i]));
        }
        if exists|i: int| 0 <= i < looks.len() && found_retrying(#[trigger] looks[i]) {
            let i = choose|i: int| 0 <= i < looks.len() && found_retrying(#[trigger] looks[i]);
            if i < n {
                assert(found_retrying(front[i]));
            }
        }
        if m.passed {
            let i = choose|i: int|
                0 <= i < front.len() && ((#[trigger] front[i]).0 is None || (found_error(front[i])
                    && exists|j: int| 0 <= j <= i && found_retrying(#[trigger] front[j])));
            assert(looks[i] == front[i]);
            if front[i].0 is Some {
                let j = choose|j: int| 0 <= j <= i && found_retrying(#[trigger] front[j]);
                assert(found_retrying(looks[j]));
            }
        }
        if w.passed && !m.passed {
            if looks.last().0 is Some {
                assert(found_error(looks[n]));
                let j = choose|j: int| 0 <= j < looks.len() && found_retrying(#[trigger] looks[j]);
                assert(0 <= j <= n && found_retrying(looks[j]));
            }
        }
        if exists|i: int|
            0 <= i < looks.len() && ((#[trigger] looks[i]).0 is None || (found_error(looks[i])
                && exists|j: int| 0 <= j <= i && found_retrying(#[trigger] looks[j]))) {
            let i = choose|i: int|
                0 <= i < looks.len() && ((#[trigger] looks[i]).0 is None || (found_error(looks[i])
                    && exists|j: int| 0 <= j <= i && found_retrying(#[trigger] looks[j])));
            if i < n {
                assert(front[i] == looks[i]);
                if looks[i].0 is Some {
                    let j = choose|j: int| 0 <= j <= i && found_retrying(#[trigger] looks[j]);
                    assert(found_retrying(front[j]));
                }
            }
        }
    }
}

/// The count and the wait of retries are those of the last look that found the output retrying.
pub proof fn retries_are_those_last_shown(
    m: SinkLossModel,
    w: RetryModel,
    s: Json,
    health: Option<Json>,
    pipeline: Seq<char>,
    output: Seq<char>,
)
    ensures
        s.text_field("status"@) == Some("retrying"@) ==> m.after(
            Some(s),
            health,
            pipeline,
            output,
        ).retry_attempts == s.u64_field("retryAttempts"@) && m.after(
            Some(s),
            health,
            pipeline,
            output,
        ).retry_backoff_ms == s.u64_field("retryBackoffMs"@),
        s.text_field("status"@) != Some("retrying"@) ==> m.after(
            Some(s),
            health,
            pipeline,
            output,
        ).retry_attempts == m.retry_attempts,
        health matches Some(h) ==> (m.after(
            Some(s),
            health,
            pipeline,
            output,
        ).health_saw_retrying <==> m.health_saw_retrying || output_in(h, pipeline, output).text_field(
            "status"@,
        ) == Some("retrying"@)),
        shows_retry(s) ==> w.after(Some(s), health, pipeline, output).retry_attempts == s.u64_field(
            "retryAttempts"@,
        ) && w.after(Some(s), health, pipeline, output).retry_backoff_ms == s.u64_field(
            "retryBackoffMs"@,
        ),
{
}

/// A watch over retries is complete exactly when its last looks found the retry in the status and in
/// the health, and the status told an error.
pub proof fn retry_is_complete_by_the_last_looks(
    w: RetryModel,
    s: Json,
    h: Json,
    pipeline: Seq<char>,
    output: Seq<char>,
)
    ensures
        w.after(Some(s), Some(h), pipeline, output).complete() <==> s.text_field("status"@) == Some(
            "retrying"@,
        ) && s.bool_field("retrying"@) == Some(true) && output_in(h, pipeline, output).text_field(
            "status"@,
        ) == Some("retrying"@) && output_in(h, pipeline, output).bool_field("retrying"@) == Some(
            true,
        ) && s.text_field("lastError"@) is Some && s.text_field("lastError"@)->0.len() > 0,
        w.after(Some(s), Some(h), pipeline, output).phase == known_text(s, "phase"@),
        w.after(Some(s), Some(h), pipeline, output).failure_phase == known_text(s, "failurePhase"@),
{
    reveal_strlit("");
}

/// An output runs again exactly when it says so, does not retry, and has sent something.
pub proof fn running_outputs_send_and_do_not_retry(s: Json)
    ensures
        runs_again(s) <==> s.text_field("status"@) == Some("running"@) && s.bool_field("retrying"@)
            != Some(true) && s.u64_field("bytesOut"@) is Some && s.u64_field("bytesOut"@)->0 >= 1,
{
}

/// An output survives a publisher that drops out exactly when it was receiving over one connection,
/// kept that connection and its state through the gap while the grace ran, and went on afterwards
/// without a trace of the loss.
pub proof fn drop_is_survived_in_full(d: PublisherDrop)
    ensures
        drop_survived(d) <==> d.baseline_video >= 10 && d.baseline_connections == 1
            && d.gap_connections == 1 && d.final_connections == 1 && d.resumed && d.gap_status is Some
            && d.gap_status->0.text_field("status"@) == Some("running"@)
            && d.gap_status->0.bool_field("retrying"@) != Some(true) && !tells_error(
            d.gap_status->0,
        ) && grace_active(d.gap_input) && grace_bounded(d.gap_input) && d.final_status is Some
            && d.final_status->0.text_field("status"@) == Some("running"@)
            && d.final_status->0.bool_field("retrying"@) != Some(true) && loss_cleared(
            d.final_input,
        ),
{
}

/// Over SRT the input has to have been seen off as well, and the media have to have come back.
pub proof fn srt_drop_is_survived_in_full(
    d: PublisherDrop,
    off_error: Option<Seq<char>>,
    media_error: Option<Seq<char>>,
)
    ensures
        srt_survived(d, off_error, media_error) <==> drop_survived(d) && off_error is None
            && d.gap_input.text_field("status"@) == Some("off"@) && media_error is None,
{
}

/// A gap while the output retries is survived exactly when the retry was seen in full, the gap shows
/// both the retry and the loss, and afterwards the output runs without a trace of either.
pub proof fn retry_gap_is_survived_in_full(g: RetryGap)
    ensures
        retry_survived(g) <==> g.baseline_video >= 10 && g.retry@.complete() && g.off_error is None
            && g.gap_status is Some && shows_retry(g.gap_status->0) && shows_retry(g.gap_output)
            && g.gap_input.text_field("status"@) == Some("off"@) && loss_told(
            g.gap_input,
            "rtmp"@,
        ) && grace_active(g.gap_input) && grace_bounded(g.gap_input) && g.media_error is None
            && g.recovered && g.final_status is Some && g.final_status->0.text_field("status"@)
            == Some("running"@) && g.final_status->0.bool_field("retrying"@) != Some(true)
            && loss_cleared(g.final_input),
{
}

/// An upload that timed out is survived exactly when the timeout was told as such in an upload's
/// phase, and afterwards the uploads came with their types and the output runs without an error.
pub proof fn upload_timeout_is_survived_in_full(u: UploadTimeout)
    ensures
        upload_survived(u) <==> u.retry@.complete() && tells_timeout(u.retry@.error)
            && u.retry@.phase == "failed"@ && (u.retry@.failure_phase == "upload_segment"@
            || u.retry@.failure_phase == "upload_playlist"@) && u.artifacts_found && u.requests
            is Some && types_told(u.requests->0@) && u.recovered && u.final_status is Some
            && u.final_status->0.text_field("status"@) == Some("running"@)
            && u.final_status->0.bool_field("retrying"@) != Some(true) && u.final_status->0.lacks(
            "lastError"@,
        ) && u.final_bytes_out > 0,
{
}

/// A timeout is told by either of its names, whatever stands around them.
pub proof fn timeouts_are_told_by_name(before: Seq<char>, after: Seq<char>)
    ensures
        ascii_lower(before) == before && ascii_lower(after) == after ==> tells_timeout(
            before + "timed out"@ + after,
        ) && tells_timeout(before + "deadline"@ + after),
{
    if ascii_lower(before) == before && ascii_lower(after) == after {
        reveal_strlit("timed out");
        reveal_strlit("deadline");
        lemma_lower_and_found(before, "timed out"@, after);
        lemma_lower_and_found(before, "deadline"@, after);
    }
}

proof fn lemma_lower_and_found(before: Seq<char>, word: Seq<char>, after: Seq<char>)
    requires
        ascii_lower(before) == before,
        ascii_lower(after) == after,
        forall|i: int| 0 <= i < word.len() ==> crate::text::lower_char(#[trigger] word[i]) == word[i],
    ensures
        contains(ascii_lower(before + word + after), word),
{
    let s = before + word + after;
    assert forall|i: int| 0 <= i < s.len() implies ascii_lower(s)[i] == s[i] by {
        if i < before.len() {
            assert(ascii_lower(before)[i] == before[i]);
        } else if i < before.len() + word.len() {
            assert(s[i] == word[i - before.len()]);
        } else {
            let k = i - before.len() - word.len();
            assert(ascii_lower(after)[k] == after[k]);
        }
    }
    assert(ascii_lower(s) =~= s);
    let at = before.len() as int;
    assert(s.subrange(at, at + word.len()) =~= word);
    assert(crate::text::occurs_at(s, word, at));
}

/// In a drop, the publisher stops, the gap is read, the same stream is published again, and only
/// then is the end read and judged.
pub proof fn drop_scripts_read_the_gap_between_two_publishers(p: ScenarioPorts, secs: u64)
    ensures
        ({
            let s = rtmp_drop_script(p, secs);
            &&& s.len() == 21
            &&& s[3] == s[12] && s[3] is Publish && s[8] == StepModel::StopPublisher
            &&& s[9] == StepModel::Pause { ms: 2500 }
            &&& s[10] == StepModel::ReadStatus { at: Moment::Gap } && s[11]
                == StepModel::ReadHealth { at: Moment::Gap }
            &&& s[14] == StepModel::AwaitMoreFrames { frames: 10, secs: 15, poll_ms: 200 }
            &&& s[15] == StepModel::ReadStatus { at: Moment::End } && s[16]
                == StepModel::ReadHealth { at: Moment::End } && s[17] == StepModel::Judge
        }),
        ({
            let s = srt_drop_script(p, secs);
            &&& s.len() == 21
            &&& s[3] == s[12] && s[3] is Publish && s[8] == StepModel::StopPublisher
            &&& s[9] == StepModel::AwaitOff { secs: 10 }
            &&& s[10] == StepModel::ReadHealth { at: Moment::Gap } && s[11]
                == StepModel::ReadStatus { at: Moment::Gap }
            &&& s[13] == StepModel::AwaitMediaReady { secs: 30 } && s[14]
                == StepModel::AwaitMoreFrames { frames: 10, secs: 15, poll_ms: 200 }
            &&& s[15] == StepModel::ReadStatus { at: Moment::End } && s[16]
                == StepModel::ReadHealth { at: Moment::End } && s[17] == StepModel::Judge
        }),
{
}

/// In a retry gap, the sink goes first and then the publisher; the gap is read while both are gone,
/// and the end once both are back.
pub proof fn retry_gap_script_takes_both_away(p: ScenarioPorts, secs: u64)
    ensures
        ({
            let s = retry_gap_script(p, secs);
            &&& s.len() == 25
            &&& s[8] == StepModel::CloseSink && s[9] == StepModel::WatchRetry {
                secs: 10,
                poll_ms: 500,
            } && s[10] == StepModel::StopPublisher && s[11] == StepModel::AwaitOff { secs: 10 }
            &&& s[13] == StepModel::ReadStatus { at: Moment::Gap } && s[14]
                == StepModel::ReadHealth { at: Moment::Gap }
            &&& s[15] == s[1] && s[15] is OpenSink && s[16] == s[3] && s[16] is Publish
            &&& s[18] == StepModel::AwaitFrames { frames: 10, secs: 25, poll_ms: 500 }
            &&& s[19] == StepModel::ReadStatus { at: Moment::End } && s[20]
                == StepModel::ReadHealth { at: Moment::End } && s[21] == StepModel::Judge
        }),
{
}

/// In an upload timeout, the first sink hangs until the retry was seen, and a second one in its place
/// keeps what comes.
pub proof fn upload_timeout_script_replaces_the_sink(
    p: ScenarioPorts,
    secs: u64,
    dir: Seq<char>,
)
    ensures
        ({
            let s = upload_timeout_script(p, secs, dir);
            &&& s.len() == 17
            &&& s[1] == StepModel::OpenHangingUploadSink { port: p.upload, secs: 30 }
            &&& s[6] == StepModel::WatchRetry { secs: 20, poll_ms: 500 } && s[7]
                == StepModel::CloseUploadSink && s[8] == StepModel::OpenUploadSink {
                port: p.upload,
                dir,
            }
            &&& s[9] == StepModel::AwaitUploads { secs: 30 } && s[10]
                == StepModel::ReadUploadRequests && s[11] == StepModel::AwaitRunning {
                secs: 20,
                poll_ms: 500,
            } && s[12] == StepModel::ReadStatus { at: Moment::End } && s[13] == StepModel::Judge
        }),
{
}

} // verus!
