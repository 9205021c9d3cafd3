//! Scenarios in which something goes away for good: publishers, targets, files.

use vstd::prelude::*;
use vstd::string::*;

use crate::harness::recovery::{ScenarioPorts, SinkLossModel, SinkLossWatch, ENOUGH_FRAMES};
use crate::harness::scenario::{
    balanced, publishers_left, publishers_left_push, sinks_left, sinks_left_push, Moment, Script,
    Step, StepModel,
};
use crate::harness::status::{
    check_loss_told, check_retry_flag, known_text, loss_told, retry_flag, text_or_unknown,
};
use crate::harness::urls::{rtmp_address, rtmp_url, srt_address, srt_url};
use crate::harness::waits::RecordingState;
use crate::json::Json;
use crate::text::{contains, contains_text, ends, ends_with, same_text, text_option};

verus! {

// ── A target is lost ─────────────────────────────────────────────────────────

/// What is seen while a lost target comes back.
#[derive(Debug)]
pub struct TargetReturn {
    pub recovered: bool,
    pub status: String,
    pub saw_retrying: bool,
}

impl TargetReturn {
    pub fn new() -> (r: Self)
        ensures
            !r.recovered,
            r.status@ == "unknown"@,
            !r.saw_retrying,
    {
        TargetReturn { recovered: false, status: "unknown".to_string(), saw_retrying: false }
    }

    /// Takes in one more answer of the server and how many frames the target has received, and
    /// says whether it is back. An answer that did not come leaves the status as it was.
    pub fn observe(&mut self, status: &Option<Json>, frames: u64) -> (r: bool)
        ensures
            final(self).status@ == (match *status {
                Some(s) => known_text(s, "status"@),
                None => old(self).status@,
            }),
            final(self).saw_retrying == (old(self).saw_retrying || (*status matches Some(s)
                && known_text(s, "status"@) == "retrying"@)),
            final(self).recovered == (old(self).recovered || frames >= ENOUGH_FRAMES),
            r == final(self).recovered,
    {
        if let Some(s) = status {
            self.status = text_or_unknown(s, "status");
            if same_text(self.status.as_str(), "retrying") {
                self.saw_retrying = true;
            }
        }
        if frames >= ENOUGH_FRAMES {
            self.recovered = true;
        }
        self.recovered
    }
}

/// Whether a lost target was tried again, visibly, until it was back.
pub open spec fn target_came_back(
    watch: SinkLossModel,
    back: TargetReturn,
    final_status: Option<Json>,
) -> bool {
    watch.passed && back.recovered && (watch.saw_retrying || back.saw_retrying)
        && watch.health_saw_retrying && !retry_flag(final_status)
}

/// Whether a target that is gone for good is still being tried, visibly.
pub open spec fn target_is_tried(watch: SinkLossModel, final_status: Option<Json>) -> bool {
    watch.passed && watch.saw_retrying && watch.health_saw_retrying && retry_flag(final_status)
}

/// Whether a lost RTMP target was tried again, visibly, until it was back.
pub fn rtmp_sink_loss_survived(
    watch: &SinkLossWatch,
    back: &TargetReturn,
    final_status: &Option<Json>,
) -> (r: bool)
    ensures
        r == target_came_back(watch@, *back, *final_status),
{
    watch.passed && back.recovered && (watch.saw_retrying || back.saw_retrying)
        && watch.health_saw_retrying && !check_retry_flag(final_status)
}

/// Whether an SRT target that is gone for good is still being tried, visibly.
pub fn srt_sink_loss_survived(watch: &SinkLossWatch, final_status: &Option<Json>) -> (r: bool)
    ensures
        r == target_is_tried(watch@, *final_status),
{
    watch.passed && watch.saw_retrying && watch.health_saw_retrying && check_retry_flag(
        final_status,
    )
}

// ── A publisher leaves ───────────────────────────────────────────────────────

/// Whether an input tells when its RTMP publisher left, and that it left in order.
pub open spec fn departure_told(input: Json) -> bool {
    loss_told(input, "rtmp"@) && input.text_field("lastDisconnectAt"@) is Some
}

/// Whether an input tells when its RTMP publisher left, and that it left in order.
pub fn rtmp_disconnect_told(input: &Json) -> (r: bool)
    ensures
        r == departure_told(*input),
{
    check_loss_told(input, "rtmp") && input.get_text("lastDisconnectAt").is_some()
}

/// Whether a file of the media directory is a recording of the given name.
pub open spec fn is_recording(file: Seq<char>, named: Seq<char>) -> bool {
    ends(file, ".ts"@) && file.len() > ".ts"@.len() && contains(file, named)
}

/// Whether a file of the media directory is a recording of the given name.
pub fn is_recording_file(file: &str, named: &str) -> (r: bool)
    ensures
        r == is_recording(file@, named@),
{
    let has_ending: bool = ends_with(file, ".ts");
    let is_bare: bool = same_text(file, ".ts");
    proof {
        if has_ending && file@.len() == ".ts"@.len() {
            assert(file@ =~= file@.skip(0));
        }
    }
    has_ending && !is_bare && contains_text(file, named)
}

/// What was seen of a recording whose publisher left.
#[derive(Debug)]
pub struct RecordingStop {
    /// What went wrong while it was awaited to be active.
    pub active_error: Option<String>,
    /// What went wrong while the input was awaited to go off.
    pub off_error: Option<String>,
    /// What it was once it was active no more.
    pub inactive: Result<RecordingState, String>,
    pub file_found: bool,
}

impl RecordingStop {
    /// Whether it is still enabled; not where nothing is known.
    pub open spec fn still_enabled(self) -> bool {
        self.inactive matches Ok(s) && s.enabled
    }

    /// Whether it is still active; so it is where nothing is known.
    pub open spec fn still_active(self) -> bool {
        !(self.inactive matches Ok(s) && !s.active)
    }

    /// It was active, is still enabled, is active no more, and left a file.
    pub open spec fn as_expected(self) -> bool {
        &&& self.active_error is None
        &&& self.off_error is None
        &&& self.inactive is Ok
        &&& self.still_enabled()
        &&& !self.still_active()
        &&& self.file_found
    }

    pub fn enabled(&self) -> (r: bool)
        ensures
            r == self.still_enabled(),
    {
        match &self.inactive {
            Ok(s) => s.enabled,
            Err(_) => false,
        }
    }

    pub fn active(&self) -> (r: bool)
        ensures
            r == self.still_active(),
    {
        match &self.inactive {
            Ok(s) => s.active,
            Err(_) => true,
        }
    }
}

/// Whether a recording stopped with its publisher.
pub fn recording_stopped(s: &RecordingStop) -> (r: bool)
    ensures
        r == s.as_expected(),
{
    s.active_error.is_none() && s.off_error.is_none() && s.inactive.is_ok() && s.enabled()
        && !s.active() && s.file_found
}

/// What has been seen of a transcoder.
#[derive(Debug, Clone, Copy, PartialEq, Eq, Structural)]
pub struct TranscoderWatch {
    /// It works: a process or a buffer is there, and something came out.
    pub spawned: bool,
    pub peak_children: u64,
    pub peak_buffers: u64,
    pub saw_output_bytes: bool,
}

/// The greater of two numbers.
pub open spec fn greater(a: u64, b: u64) -> u64 {
    if a >= b {
        a
    } else {
        b
    }
}

impl TranscoderWatch {
    /// Nothing has been seen yet.
    pub open spec fn start() -> TranscoderWatch {
        TranscoderWatch { spawned: false, peak_children: 0, peak_buffers: 0, saw_output_bytes: false }
    }

    /// What has been seen once the numbers have been read again.
    pub open spec fn after(self, children: u64, buffers: u64, bytes: u64) -> TranscoderWatch {
        let saw = self.saw_output_bytes || bytes > 0;
        TranscoderWatch {
            spawned: self.spawned || ((children > 0 || buffers > 0) && saw),
            peak_children: greater(self.peak_children, children),
            peak_buffers: greater(self.peak_buffers, buffers),
            saw_output_bytes: saw,
        }
    }

    pub fn new() -> (r: Self)
        ensures
            r == TranscoderWatch::start(),
    {
        TranscoderWatch { spawned: false, peak_children: 0, peak_buffers: 0, saw_output_bytes: false }
    }

    /// Takes in the numbers once more, and says whether the transcoder works. Buffers that are not
    /// told of count as none.
    pub fn observe(&mut self, children: u64, buffers: Option<u64>, bytes: u64) -> (r: bool)
        ensures
            *final(self) == old(self).after(
                children,
                match buffers {
                    Some(n) => n,
                    None => 0,
                },
                bytes,
            ),
            r == final(self).spawned,
    {
        let n: u64 = match buffers {
            Some(n) => n,
            None => 0,
        };
        if children > self.peak_children {
            self.peak_children = children;
        }
        if n > self.peak_buffers {
            self.peak_buffers = n;
        }
        if bytes > 0 {
            self.saw_output_bytes = true;
        }
        if (children > 0 || n > 0) && self.saw_output_bytes {
            self.spawned = true;
        }
        self.spawned
    }
}

/// Whether an output is cleaned up: it is gone, or answers with an error, or has ended.
pub open spec fn cleaned_up(status: Option<Json>) -> bool {
    match status {
        None => true,
        Some(s) => s.field("error"@) is Some || (s.text_field("endedAt"@) is Some && (s.has_text(
            "status"@,
            "stopped"@,
        ) || s.has_text("status"@, "failed"@))),
    }
}

/// Whether an output is cleaned up.
pub fn output_cleaned_up(status: &Option<Json>) -> (r: bool)
    ensures
        r == cleaned_up(*status),
{
    match status {
        None => true,
        Some(s) => s.get("error").is_some() || (s.get_text("endedAt").is_some() && (s.text_is(
            "status",
            "stopped",
        ) || s.text_is("status", "failed"))),
    }
}

/// What was seen of a transcoder whose publisher left.
#[derive(Debug)]
pub struct TranscoderStop {
    pub watch: TranscoderWatch,
    /// What went wrong while the input was awaited to go off.
    pub off_error: Option<String>,
    /// The processes and buffers of the last look.
    pub last_children: u64,
    pub last_buffers: u64,
    pub final_status: Option<Json>,
}

impl TranscoderStop {
    /// It worked, nothing of it is left, and its output is cleaned up.
    pub open spec fn as_expected(self) -> bool {
        &&& self.watch.spawned
        &&& self.off_error is None
        &&& self.last_children == 0
        &&& self.last_buffers == 0
        &&& cleaned_up(self.final_status)
    }

    /// Takes in the processes and buffers once more, and says whether nothing is left. Buffers that
    /// are not told of count as left.
    pub fn look(&mut self, children: u64, buffers: Option<u64>) -> (r: bool)
        ensures
            *final(self) == (TranscoderStop {
                last_children: children,
                last_buffers: match buffers {
                    Some(n) => n,
                    None => u64::MAX,
                },
                ..*old(self)
            }),
            r == (children == 0 && buffers == Some(0u64)),
    {
        self.last_children = children;
        self.last_buffers = match buffers {
            Some(n) => n,
            None => 18_446_744_073_709_551_615,
        };
        children == 0 && self.last_buffers == 0
    }
}

/// Whether a transcoder stopped with its publisher.
pub fn transcoder_stopped(s: &TranscoderStop) -> (r: bool)
    ensures
        r == s.as_expected(),
{
    s.watch.spawned && s.off_error.is_none() && s.last_children == 0 && s.last_buffers == 0
        && output_cleaned_up(&s.final_status)
}

/// The answer of a server that has no such page.
pub const NOT_FOUND: u16 = 404;

/// What was seen of a preview whose publisher left.
#[derive(Debug)]
pub struct PreviewStop {
    /// The status and text of the playlist that was served before.
    pub playlist: Result<(u16, String), String>,
    /// What went wrong while the preview was awaited to be active.
    pub active_error: Option<String>,
    /// What went wrong while the input was awaited to go off.
    pub off_error: Option<String>,
    /// What went wrong while the preview was awaited to be active no more.
    pub inactive_error: Option<String>,
    /// The status of the playlist at the last look.
    pub last_status: u16,
}

impl PreviewStop {
    /// Whether a playlist was served.
    pub open spec fn was_served(self) -> bool {
        self.playlist matches Ok(answer) && contains(answer.1@, "#EXTM3U"@)
    }

    /// The status of the playlist; where none was served, there was no such page.
    pub open spec fn first_status(self) -> u16 {
        match self.playlist {
            Ok(answer) => answer.0,
            Err(_) => NOT_FOUND,
        }
    }

    /// A playlist was served, and is gone with its publisher.
    pub open spec fn as_expected(self) -> bool {
        &&& self.was_served()
        &&& self.active_error is None
        &&& self.off_error is None
        &&& self.inactive_error is None
        &&& self.last_status == NOT_FOUND
    }

    pub fn served(&self) -> (r: bool)
        ensures
            r == self.was_served(),
    {
        match &self.playlist {
            Ok(answer) => contains_text(answer.1.as_str(), "#EXTM3U"),
            Err(_) => false,
        }
    }

    pub fn status(&self) -> (r: u16)
        ensures
            r == self.first_status(),
    {
        match &self.playlist {
            Ok(answer) => answer.0,
            Err(_) => NOT_FOUND,
        }
    }
}

/// Whether a preview stopped with its publisher.
pub fn preview_stopped(s: &PreviewStop) -> (r: bool)
    ensures
        r == s.as_expected(),
{
    s.served() && s.active_error.is_none() && s.off_error.is_none() && s.inactive_error.is_none()
        && s.last_status == NOT_FOUND
}

/// Whether a file ingest that came to its end is started again, or why not.
pub fn restart_after_end(went_off: bool, stopped: bool) -> (r: Result<(), &'static str>)
    ensures
        match r {
            Ok(_) => went_off && stopped,
            Err(message) => !(went_off && stopped) && message@
                == "skipped restart because EOF cleanup did not complete"@,
        },
{
    if went_off && stopped {
        Ok(())
    } else {
        Err("skipped restart because EOF cleanup did not complete")
    }
}

/// What went wrong with a file ingest that came to its end: while it was awaited to run, while its
/// input was awaited to go off, while it was awaited to stop, and when it was started again.
#[derive(Debug)]
pub struct FileEnd {
    pub running_error: Option<String>,
    pub off_error: Option<String>,
    pub stopped_error: Option<String>,
    pub restart_error: Option<String>,
}

impl FileEnd {
    pub open spec fn as_expected(self) -> bool {
        &&& self.running_error is None
        &&& self.off_error is None
        &&& self.stopped_error is None
        &&& self.restart_error is None
    }
}

/// Whether the end of a file was cleaned up and the ingest could be started again.
pub fn file_end_survived(s: &FileEnd) -> (r: bool)
    ensures
        r == s.as_expected(),
{
    s.running_error.is_none() && s.off_error.is_none() && s.stopped_error.is_none()
        && s.restart_error.is_none()
}

// ── Finding ───────────────────────────────────────────────────

/// The first ingest of a list that has a stream key.
pub open spec fn ingest_with_key(list: Seq<Json>, key: Seq<char>) -> Option<Json>
    decreases list.len(),
{
    if list.len() == 0 {
        None
    } else if list[0].has_text("streamKey"@, key) {
        Some(list[0])
    } else {
        ingest_with_key(list.skip(1), key)
    }
}

/// The id of the ingest that has a stream key, in the server's list of ingests.
pub fn find_ingest_id(list: &Json, key: &str) -> (r: Option<String>)
    ensures
        text_option(r) == match list.as_list() {
            Some(items) => match ingest_with_key(items, key@) {
                Some(ingest) => ingest.text_field("id"@),
                None => None,
            },
            None => None,
        },
{
    match list {
        Json::List(items) => {
            let mut i: usize = 0;
            assert(items@.skip(0) =~= items@);
            while i < items.len()
                invariant
                    i <= items@.len(),
                    list.as_list() == Some(items@),
                    ingest_with_key(items@, key@) == ingest_with_key(items@.skip(i as int), key@),
                decreases items@.len() - i,
            {
                assert(items@.skip(i as int)[0] == items@[i as int]);
                assert(items@.skip(i as int).skip(1) =~= items@.skip(i + 1));
                if items[i].text_is("streamKey", key) {
                    return match items[i].get_text("id") {
                        Some(id) => Some(id.to_string()),
                        None => None,
                    };
                }
                i += 1;
            }
            None
        },
        _ => None,
    }
}

// ── Scripts ──────────────────────────────────────────────────────────────────

/// The target of an RTMP output is lost and comes back.
pub open spec fn rtmp_sink_loss_script(p: ScenarioPorts, secs: u64) -> Seq<StepModel> {
    let url = rtmp_address(p.rtmp, "fault-egress-rtmp"@);
    Seq::empty().push(
        StepModel::CreatePipeline { name: "fault-egress-rtmp"@ },
    ).push(
        StepModel::OpenSink { port: p.sink },
    ).push(
        StepModel::CreateOutput { name: "rtmp-sink"@, url: rtmp_address(p.sink, "fault-egress-rtmp-sink"@), encoding: "source"@ },
    ).push(
        StepModel::Publish { url, format: "flv"@, all_streams: false },
    ).push(
        StepModel::AwaitLive { secs },
    ).push(
        StepModel::StartOutput,
    ).push(
        StepModel::AwaitFrames { frames: ENOUGH_FRAMES, secs, poll_ms: 200 },
    ).push(
        StepModel::CloseSink,
    ).push(
        StepModel::StartClock,
    ).push(
        StepModel::WatchLoss { secs: 10, poll_ms: 500 },
    ).push(
        StepModel::StopClock,
    ).push(
        StepModel::OpenSink { port: p.sink },
    ).push(
        StepModel::AwaitFrames { frames: ENOUGH_FRAMES, secs: 25, poll_ms: 500 },
    ).push(
        StepModel::CloseSink,
    ).push(
        StepModel::ReadStatus { at: Moment::End },
    ).push(
        StepModel::Judge,
    ).push(
        StepModel::StopPublisher,
    )
}

/// The target of an RTMP output is lost and comes back.
pub fn plan_rtmp_sink_loss(p: ScenarioPorts, secs: u64) -> (r: Script)
    ensures
        r@ == rtmp_sink_loss_script(p, secs),
{
    let url: String = rtmp_url(p.rtmp, "fault-egress-rtmp");
    let mut s: Script = Script::new();
    s.add_step(Step::CreatePipeline { name: "fault-egress-rtmp".to_string() });
    s.add_step(Step::OpenSink { port: p.sink });
    s.add_step(Step::CreateOutput { name: "rtmp-sink".to_string(), url: rtmp_url(p.sink, "fault-egress-rtmp-sink"), encoding: "source".to_string() });
    s.add_step(Step::Publish { url: url.clone(), format: "flv", all_streams: false });
    s.add_step(Step::AwaitLive { secs });
    s.add_step(Step::StartOutput);
    s.add_step(Step::AwaitFrames { frames: ENOUGH_FRAMES, secs, poll_ms: 200 });
    s.add_step(Step::CloseSink);
    s.add_step(Step::StartClock);
    s.add_step(Step::WatchLoss { secs: 10, poll_ms: 500 });
    s.add_step(Step::StopClock);
    s.add_step(Step::OpenSink { port: p.sink });
    s.add_step(Step::AwaitFrames { frames: ENOUGH_FRAMES, secs: 25, poll_ms: 500 });
    s.add_step(Step::CloseSink);
    s.add_step(Step::ReadStatus { at: Moment::End });
    s.add_step(Step::Judge);
    s.add_step(Step::StopPublisher);
    s
}

/// The target of an SRT output, a pipeline of the same server, is deleted for good.
pub open spec fn srt_sink_loss_script(p: ScenarioPorts, secs: u64) -> Seq<StepModel> {
    let url = srt_address(p.srt, "fault-egress-srt"@);
    Seq::empty().push(
        StepModel::CreatePipeline { name: "fault-egress-srt"@ },
    ).push(
        StepModel::CreateSinkPipeline { name: "srt-sink-target"@ },
    ).push(
        StepModel::CreateOutput { name: "srt-sink"@, url: srt_address(p.srt, "srt-sink-target"@), encoding: "source"@ },
    ).push(
        StepModel::Publish { url, format: "mpegts"@, all_streams: true },
    ).push(
        StepModel::AwaitLive { secs },
    ).push(
        StepModel::StartOutput,
    ).push(
        StepModel::AwaitSinkPipelineLive { secs },
    ).push(
        StepModel::DeleteSinkPipeline,
    ).push(
        StepModel::StartClock,
    ).push(
        StepModel::WatchLoss { secs: 10, poll_ms: 500 },
    ).push(
        StepModel::StopClock,
    ).push(
        StepModel::ReadStatus { at: Moment::End },
    ).push(
        StepModel::Judge,
    ).push(
        StepModel::StopPublisher,
    )
}

/// The target of an SRT output, a pipeline of the same server, is deleted for good.
pub fn plan_srt_sink_loss(p: ScenarioPorts, secs: u64) -> (r: Script)
    ensures
        r@ == srt_sink_loss_script(p, secs),
{
    let url: String = srt_url(p.srt, "fault-egress-srt");
    let mut s: Script = Script::new();
    s.add_step(Step::CreatePipeline { name: "fault-egress-srt".to_string() });
    s.add_step(Step::CreateSinkPipeline { name: "srt-sink-target".to_string() });
    s.add_step(Step::CreateOutput { name: "srt-sink".to_string(), url: srt_url(p.srt, "srt-sink-target"), encoding: "source".to_string() });
    s.add_step(Step::Publish { url: url.clone(), format: "mpegts", all_streams: true });
    s.add_step(Step::AwaitLive { secs });
    s.add_step(Step::StartOutput);
    s.add_step(Step::AwaitSinkPipelineLive { secs });
    s.add_step(Step::DeleteSinkPipeline);
    s.add_step(Step::StartClock);
    s.add_step(Step::WatchLoss { secs: 10, poll_ms: 500 });
    s.add_step(Step::StopClock);
    s.add_step(Step::ReadStatus { at: Moment::End });
    s.add_step(Step::Judge);
    s.add_step(Step::StopPublisher);
    s
}

/// An RTMP publisher leaves.
pub open spec fn rtmp_disconnect_script(p: ScenarioPorts, secs: u64) -> Seq<StepModel> {
    let url = rtmp_address(p.rtmp, "fault-rtmp"@);
    Seq::empty().push(
        StepModel::CreatePipeline { name: "fault-rtmp"@ },
    ).push(
        StepModel::Publish { url, format: "flv"@, all_streams: false },
    ).push(
        StepModel::AwaitLive { secs },
    ).push(
        StepModel::StopPublisher,
    ).push(
        StepModel::StartClock,
    ).push(
        StepModel::AwaitOff { secs },
    ).push(
        StepModel::StopClock,
    ).push(
        StepModel::ReadHealth { at: Moment::End },
    ).push(
        StepModel::Judge,
    )
}

/// An RTMP publisher leaves.
pub fn plan_rtmp_disconnect(p: ScenarioPorts, secs: u64) -> (r: Script)
    ensures
        r@ == rtmp_disconnect_script(p, secs),
{
    let url: String = rtmp_url(p.rtmp, "fault-rtmp");
    let mut s: Script = Script::new();
    s.add_step(Step::CreatePipeline { name: "fault-rtmp".to_string() });
    s.add_step(Step::Publish { url: url.clone(), format: "flv", all_streams: false });
    s.add_step(Step::AwaitLive { secs });
    s.add_step(Step::StopPublisher);
    s.add_step(Step::StartClock);
    s.add_step(Step::AwaitOff { secs });
    s.add_step(Step::StopClock);
    s.add_step(Step::ReadHealth { at: Moment::End });
    s.add_step(Step::Judge);
    s
}

/// An SRT publisher leaves.
pub open spec fn srt_disconnect_script(p: ScenarioPorts, secs: u64) -> Seq<StepModel> {
    let url = srt_address(p.srt, "fault-srt"@);
    Seq::empty().push(
        StepModel::CreatePipeline { name: "fault-srt"@ },
    ).push(
        StepModel::Publish { url, format: "mpegts"@, all_streams: true },
    ).push(
        StepModel::AwaitLive { secs },
    ).push(
        StepModel::StopPublisher,
    ).push(
        StepModel::StartClock,
    ).push(
        StepModel::AwaitOff { secs },
    ).push(
        StepModel::StopClock,
    ).push(
        StepModel::Judge,
    )
}

/// An SRT publisher leaves.
pub fn plan_srt_disconnect(p: ScenarioPorts, secs: u64) -> (r: Script)
    ensures
        r@ == srt_disconnect_script(p, secs),
{
    let url: String = srt_url(p.srt, "fault-srt");
    let mut s: Script = Script::new();
    s.add_step(Step::CreatePipeline { name: "fault-srt".to_string() });
    s.add_step(Step::Publish { url: url.clone(), format: "mpegts", all_streams: true });
    s.add_step(Step::AwaitLive { secs });
    s.add_step(Step::StopPublisher);
    s.add_step(Step::StartClock);
    s.add_step(Step::AwaitOff { secs });
    s.add_step(Step::StopClock);
    s.add_step(Step::Judge);
    s
}

/// A file ingest is stopped.
pub open spec fn file_stop_script(secs: u64) -> Seq<StepModel> {
    Seq::empty().push(
        StepModel::CreatePipeline { name: "fault-file"@ },
    ).push(
        StepModel::SetFileIngest { repeat: false },
    ).push(
        StepModel::StartFileIngest,
    ).push(
        StepModel::AwaitLive { secs: 30 },
    ).push(
        StepModel::StopFileIngest,
    ).push(
        StepModel::StartClock,
    ).push(
        StepModel::AwaitOff { secs },
    ).push(
        StepModel::StopClock,
    ).push(
        StepModel::Judge,
    )
}

/// A file ingest is stopped.
pub fn plan_file_stop(secs: u64) -> (r: Script)
    ensures
        r@ == file_stop_script(secs),
{
    let mut s: Script = Script::new();
    s.add_step(Step::CreatePipeline { name: "fault-file".to_string() });
    s.add_step(Step::SetFileIngest { repeat: false });
    s.add_step(Step::StartFileIngest);
    s.add_step(Step::AwaitLive { secs: 30 });
    s.add_step(Step::StopFileIngest);
    s.add_step(Step::StartClock);
    s.add_step(Step::AwaitOff { secs });
    s.add_step(Step::StopClock);
    s.add_step(Step::Judge);
    s
}

/// A publisher leaves while it is recorded.
pub open spec fn recording_stop_script(p: ScenarioPorts, secs: u64) -> Seq<StepModel> {
    let url = rtmp_address(p.rtmp, "fault-recording"@);
    Seq::empty().push(
        StepModel::CreatePipeline { name: "fault-recording"@ },
    ).push(
        StepModel::Publish { url, format: "flv"@, all_streams: false },
    ).push(
        StepModel::AwaitLive { secs },
    ).push(
        StepModel::StartRecording,
    ).push(
        StepModel::AwaitRecording { active: true, secs: 10 },
    ).push(
        StepModel::Pause { ms: 6_000 },
    ).push(
        StepModel::StopPublisher,
    ).push(
        StepModel::StartClock,
    ).push(
        StepModel::AwaitOff { secs },
    ).push(
        StepModel::AwaitRecording { active: false, secs: 10 },
    ).push(
        StepModel::StopClock,
    ).push(
        StepModel::FindRecordingFile { named: "fault-recording"@, in_work_dir: false },
    ).push(
        StepModel::Judge,
    )
}

/// A publisher leaves while it is recorded.
pub fn plan_recording_stop(p: ScenarioPorts, secs: u64) -> (r: Script)
    ensures
        r@ == recording_stop_script(p, secs),
{
    let url: String = rtmp_url(p.rtmp, "fault-recording");
    let mut s: Script = Script::new();
    s.add_step(Step::CreatePipeline { name: "fault-recording".to_string() });
    s.add_step(Step::Publish { url: url.clone(), format: "flv", all_streams: false });
    s.add_step(Step::AwaitLive { secs });
    s.add_step(Step::StartRecording);
    s.add_step(Step::AwaitRecording { active: true, secs: 10 });
    s.add_step(Step::Pause { ms: 6_000 });
    s.add_step(Step::StopPublisher);
    s.add_step(Step::StartClock);
    s.add_step(Step::AwaitOff { secs });
    s.add_step(Step::AwaitRecording { active: false, secs: 10 });
    s.add_step(Step::StopClock);
    s.add_step(Step::FindRecordingFile { named: "fault-recording".to_string(), in_work_dir: false });
    s.add_step(Step::Judge);
    s
}

/// A publisher leaves while it is transcoded.
pub open spec fn transcoder_stop_script(p: ScenarioPorts, secs: u64) -> Seq<StepModel> {
    let url = rtmp_address(p.rtmp, "fault-transcoder"@);
    Seq::empty().push(
        StepModel::CreatePipeline { name: "fault-transcoder"@ },
    ).push(
        StepModel::OpenSink { port: p.sink },
    ).push(
        StepModel::CreateOutput { name: "rtmp-720p"@, url: rtmp_address(p.sink, "fault-transcoder-sink"@), encoding: "720p"@ },
    ).push(
        StepModel::Publish { url, format: "flv"@, all_streams: false },
    ).push(
        StepModel::AwaitLive { secs },
    ).push(
        StepModel::StartOutput,
    ).push(
        StepModel::AwaitTranscoder { secs: 15 },
    ).push(
        StepModel::StopPublisher,
    ).push(
        StepModel::StartClock,
    ).push(
        StepModel::AwaitOff { secs },
    ).push(
        StepModel::AwaitTranscoderGone { secs: 15 },
    ).push(
        StepModel::ReadStatus { at: Moment::End },
    ).push(
        StepModel::StopClock,
    ).push(
        StepModel::Judge,
    ).push(
        StepModel::CloseSink,
    )
}

/// A publisher leaves while it is transcoded.
pub fn plan_transcoder_stop(p: ScenarioPorts, secs: u64) -> (r: Script)
    ensures
        r@ == transcoder_stop_script(p, secs),
{
    let url: String = rtmp_url(p.rtmp, "fault-transcoder");
    let mut s: Script = Script::new();
    s.add_step(Step::CreatePipeline { name: "fault-transcoder".to_string() });
    s.add_step(Step::OpenSink { port: p.sink });
    s.add_step(Step::CreateOutput { name: "rtmp-720p".to_string(), url: rtmp_url(p.sink, "fault-transcoder-sink"), encoding: "720p".to_string() });
    s.add_step(Step::Publish { url: url.clone(), format: "flv", all_streams: false });
    s.add_step(Step::AwaitLive { secs });
    s.add_step(Step::StartOutput);
    s.add_step(Step::AwaitTranscoder { secs: 15 });
    s.add_step(Step::StopPublisher);
    s.add_step(Step::StartClock);
    s.add_step(Step::AwaitOff { secs });
    s.add_step(Step::AwaitTranscoderGone { secs: 15 });
    s.add_step(Step::ReadStatus { at: Moment::End });
    s.add_step(Step::StopClock);
    s.add_step(Step::Judge);
    s.add_step(Step::CloseSink);
    s
}

/// A publisher leaves while it is previewed.
pub open spec fn preview_stop_script(p: ScenarioPorts, secs: u64) -> Seq<StepModel> {
    let url = rtmp_address(p.rtmp, "fault-hls-preview"@);
    Seq::empty().push(
        StepModel::CreatePipeline { name: "fault-hls-preview"@ },
    ).push(
        StepModel::Publish { url, format: "flv"@, all_streams: false },
    ).push(
        StepModel::AwaitLive { secs },
    ).push(
        StepModel::AwaitPlaylist { secs: 15 },
    ).push(
        StepModel::AwaitPreview { active: true, secs: 10 },
    ).push(
        StepModel::StopPublisher,
    ).push(
        StepModel::StartClock,
    ).push(
        StepModel::AwaitOff { secs },
    ).push(
        StepModel::AwaitPreview { active: false, secs: 15 },
    ).push(
        StepModel::StopClock,
    ).push(
        StepModel::AwaitPlaylistGone { secs: 15 },
    ).push(
        StepModel::Judge,
    )
}

/// A publisher leaves while it is previewed.
pub fn plan_preview_stop(p: ScenarioPorts, secs: u64) -> (r: Script)
    ensures
        r@ == preview_stop_script(p, secs),
{
    let url: String = rtmp_url(p.rtmp, "fault-hls-preview");
    let mut s: Script = Script::new();
    s.add_step(Step::CreatePipeline { name: "fault-hls-preview".to_string() });
    s.add_step(Step::Publish { url: url.clone(), format: "flv", all_streams: false });
    s.add_step(Step::AwaitLive { secs });
    s.add_step(Step::AwaitPlaylist { secs: 15 });
    s.add_step(Step::AwaitPreview { active: true, secs: 10 });
    s.add_step(Step::StopPublisher);
    s.add_step(Step::StartClock);
    s.add_step(Step::AwaitOff { secs });
    s.add_step(Step::AwaitPreview { active: false, secs: 15 });
    s.add_step(Step::StopClock);
    s.add_step(Step::AwaitPlaylistGone { secs: 15 });
    s.add_step(Step::Judge);
    s
}

/// A file ingest comes to the end of its file, and is started again where it was cleaned up.
pub open spec fn file_end_script() -> Seq<StepModel> {
    Seq::empty().push(
        StepModel::CreatePipeline { name: "fault-file-eof"@ },
    ).push(
        StepModel::SetFileIngest { repeat: false },
    ).push(
        StepModel::StartFileIngest,
    ).push(
        StepModel::AwaitLive { secs: 30 },
    ).push(
        StepModel::AwaitFileIngest { running: true, secs: 10 },
    ).push(
        StepModel::StartClock,
    ).push(
        StepModel::AwaitOff { secs: 60 },
    ).push(
        StepModel::AwaitFileIngest { running: false, secs: 10 },
    ).push(
        StepModel::StartFileIngest,
    ).push(
        StepModel::AwaitLive { secs: 30 },
    ).push(
        StepModel::StopFileIngest,
    ).push(
        StepModel::StopClock,
    ).push(
        StepModel::Judge,
    )
}

/// A file ingest comes to the end of its file, and is started again where it was cleaned up.
pub fn plan_file_end() -> (r: Script)
    ensures
        r@ == file_end_script(),
{
    let mut s: Script = Script::new();
    s.add_step(Step::CreatePipeline { name: "fault-file-eof".to_string() });
    s.add_step(Step::SetFileIngest { repeat: false });
    s.add_step(Step::StartFileIngest);
    s.add_step(Step::AwaitLive { secs: 30 });
    s.add_step(Step::AwaitFileIngest { running: true, secs: 10 });
    s.add_step(Step::StartClock);
    s.add_step(Step::AwaitOff { secs: 60 });
    s.add_step(Step::AwaitFileIngest { running: false, secs: 10 });
    s.add_step(Step::StartFileIngest);
    s.add_step(Step::AwaitLive { secs: 30 });
    s.add_step(Step::StopFileIngest);
    s.add_step(Step::StopClock);
    s.add_step(Step::Judge);
    s
}

// ── Laws ─────────────────────────────────────────────────────────────────────

/// Every one of these scenarios stops the publishers that it starts, and closes its sinks.
pub proof fn fault_scripts_are_balanced(p: ScenarioPorts, secs: u64)
    ensures
        balanced(rtmp_sink_loss_script(p, secs)),
        balanced(srt_sink_loss_script(p, secs)),
        balanced(rtmp_disconnect_script(p, secs)),
        balanced(srt_disconnect_script(p, secs)),
        balanced(file_stop_script(secs)),
        balanced(recording_stop_script(p, secs)),
        balanced(transcoder_stop_script(p, secs)),
        balanced(preview_stop_script(p, secs)),
        balanced(file_end_script()),
{
    broadcast use {publishers_left_push, sinks_left_push};

    assert(publishers_left(Seq::<StepModel>::empty()) == 0);
    assert(sinks_left(Seq::<StepModel>::empty()) == 0);
}

/// A transcoder that was seen to work stays seen, and the peaks never fall.
pub proof fn transcoder_peaks_never_fall(
    w: TranscoderWatch,
    children: u64,
    buffers: u64,
    bytes: u64,
)
    ensures
        w.spawned ==> w.after(children, buffers, bytes).spawned,
        w.peak_children <= w.after(children, buffers, bytes).peak_children,
        w.peak_buffers <= w.after(children, buffers, bytes).peak_buffers,
        children <= w.after(children, buffers, bytes).peak_children,
        buffers <= w.after(children, buffers, bytes).peak_buffers,
{
}

/// A target that was lost came back exactly when the loss was seen, the stream went on, the retry was
/// seen in the status and in the health, and the output retries no more; one that stays away is
/// tried exactly when all of that was seen and the output still retries.
pub proof fn lost_targets_come_back_or_are_tried(
    watch: SinkLossModel,
    back: TargetReturn,
    final_status: Option<Json>,
)
    ensures
        target_came_back(watch, back, final_status) <==> watch.passed && back.recovered && (
        watch.saw_retrying || back.saw_retrying) && watch.health_saw_retrying && !(final_status
            is Some && final_status->0.bool_field("retrying"@) == Some(true)),
        target_is_tried(watch, final_status) <==> watch.passed && watch.saw_retrying
            && watch.health_saw_retrying && final_status is Some && final_status->0.bool_field(
            "retrying"@,
        ) == Some(true),
{
}

/// A departure is told by the four fields of a loss over RTMP, and by when it was.
pub proof fn departures_are_told_with_their_time(input: Json)
    ensures
        departure_told(input) <==> input.text_field("lastSessionProtocol"@) == Some("rtmp"@)
            && input.text_field("lastDisconnectReason"@) == Some("publisher disconnected"@)
            && input.text_field("lastFailurePhase"@) == Some("disconnect"@) && input.bool_field(
            "recentDisconnectError"@,
        ) == Some(false) && input.text_field("lastDisconnectAt"@) is Some,
{
}

/// A recording is a file of something, with `.ts` behind it, whose name holds that of the recording.
pub proof fn recordings_are_named_and_end_in_ts(
    before: Seq<char>,
    named: Seq<char>,
    after: Seq<char>,
    file: Seq<char>,
)
    ensures
        before.len() + named.len() + after.len() > 0 ==> is_recording(
            before + named + after + ".ts"@,
            named,
        ),
        is_recording(file, named) ==> exists|stem: Seq<char>|
            stem.len() > 0 && file == #[trigger] (stem + ".ts"@),
{
    reveal_strlit(".ts");
    let f = before + named + after + ".ts"@;
    assert(f.skip(f.len() - 3) =~= ".ts"@);
    let at = before.len() as int;
    assert(f.subrange(at, at + named.len()) =~= named);
    assert(crate::text::occurs_at(f, named, at));
    if is_recording(file, named) {
        let stem = file.take(file.len() - 3);
        assert(file =~= stem + ".ts"@);
    }
}

/// A recording ends as it should exactly when it ran, its publisher went, it runs no more but is
/// still wanted, and its file is there.
pub proof fn recording_ends_but_stays_wanted(r: RecordingStop)
    ensures
        r.as_expected() <==> r.active_error is None && r.off_error is None && r.inactive is Ok
            && r.inactive->Ok_0.enabled && !r.inactive->Ok_0.active && r.file_found,
{
}

/// A transcoder was seen to work exactly when some look found it there, by its process or its buffer,
/// once the output had sent something; the peaks are the greatest numbers that were seen.
pub proof fn transcoder_is_seen_with_its_output(
    w: TranscoderWatch,
    children: u64,
    buffers: u64,
    bytes: u64,
)
    ensures
        ({
            let after = w.after(children, buffers, bytes);
            &&& after.saw_output_bytes <==> w.saw_output_bytes || bytes > 0
            &&& after.spawned <==> w.spawned || ((children > 0 || buffers > 0) && (
            w.saw_output_bytes || bytes > 0))
            &&& after.peak_children == w.peak_children || after.peak_children == children
            &&& after.peak_buffers == w.peak_buffers || after.peak_buffers == buffers
            &&& !TranscoderWatch::start().spawned && TranscoderWatch::start().peak_children == 0
        }),
{
}

/// An output is cleaned up where nothing is known of it any more, or it tells when it ended, stopped
/// or failed.
pub proof fn outputs_are_cleaned_up_in_the_end(s: Json)
    ensures
        cleaned_up(None),
        cleaned_up(Some(s)) <==> s.field("error"@) is Some || (s.text_field("endedAt"@) is Some && (
        s.text_field("status"@) == Some("stopped"@) || s.text_field("status"@) == Some("failed"@))),
{
}

/// A transcoder ends as it should exactly when it worked, its publisher went, and neither process,
/// buffer nor output is left of it; a preview when it was served, became active and inactive again,
/// and is not found in the end; a file when nothing went wrong from its first run to its second.
pub proof fn faults_are_judged_in_full(t: TranscoderStop, p: PreviewStop, f: FileEnd)
    ensures
        t.as_expected() <==> t.watch.spawned && t.off_error is None && t.last_children == 0
            && t.last_buffers == 0 && cleaned_up(t.final_status),
        p.as_expected() <==> p.playlist is Ok && contains(p.playlist->Ok_0.1@, "#EXTM3U"@)
            && p.active_error is None && p.off_error is None && p.inactive_error is None
            && p.last_status == 404,
        p.playlist is Ok ==> p.first_status() == p.playlist->Ok_0.0,
        p.playlist is Err ==> p.first_status() == 404,
        f.as_expected() <==> f.running_error is None && f.off_error is None && f.stopped_error
            is None && f.restart_error is None,
{
}

/// An ingest is found by its key: the first one that has it, and none only where none has it.
pub proof fn ingests_are_found_by_their_keys(list: Seq<Json>, key: Seq<char>)
    ensures
        match ingest_with_key(list, key) {
            Some(found) => list.contains(found) && found.text_field("streamKey"@) == Some(key),
            None => forall|i: int|
                0 <= i < list.len() ==> (#[trigger] list[i]).text_field("streamKey"@) != Some(key),
        },
    decreases list.len(),
{
    if list.len() > 0 {
        let rest = list.skip(1);
        ingests_are_found_by_their_keys(rest, key);
        assert(list.contains(list[0]));
        if list[0].text_field("streamKey"@) != Some(key) {
            match ingest_with_key(rest, key) {
                Some(found) => {
                    let k = rest.index_of(found);
                    assert(list[k + 1] == found);
                },
                None => {
                    assert forall|i: int| 0 <= i < list.len() implies (#[trigger] list[i]).text_field(
                        "streamKey"@,
                    ) != Some(key) by {
                        if i > 0 {
                            assert(rest[i - 1] == list[i]);
                        }
                    }
                },
            }
        }
    }
}

/// A target is lost while it receives, watched for ten seconds, and judged by its status; over RTMP
/// it is opened again, over SRT it stays away.
pub proof fn sink_loss_scripts_lose_the_target(p: ScenarioPorts, secs: u64)
    ensures
        ({
            let s = rtmp_sink_loss_script(p, secs);
            &&& s.len() == 17
            &&& s[1] == StepModel::OpenSink { port: p.sink } && s[6] == StepModel::AwaitFrames {
                frames: 10,
                secs,
                poll_ms: 200,
            } && s[7] == StepModel::CloseSink && s[8] == StepModel::StartClock && s[9]
                == StepModel::WatchLoss { secs: 10, poll_ms: 500 } && s[10] == StepModel::StopClock
            &&& s[11] == s[1] && s[12] == StepModel::AwaitFrames {
                frames: 10,
                secs: 25,
                poll_ms: 500,
            }
            &&& s[14] == StepModel::ReadStatus { at: Moment::End } && s[15] == StepModel::Judge
        }),
        ({
            let s = srt_sink_loss_script(p, secs);
            &&& s.len() == 14
            &&& s[6] == StepModel::AwaitSinkPipelineLive { secs } && s[7]
                == StepModel::DeleteSinkPipeline && s[8] == StepModel::StartClock && s[9]
                == StepModel::WatchLoss { secs: 10, poll_ms: 500 } && s[10] == StepModel::StopClock
            &&& s[11] == StepModel::ReadStatus { at: Moment::End } && s[12] == StepModel::Judge
        }),
{
}

/// A source goes while it is live, and how long it takes to be seen off is measured.
pub proof fn disconnect_scripts_measure_how_long_it_takes(p: ScenarioPorts, secs: u64)
    ensures
        ({
            let s = rtmp_disconnect_script(p, secs);
            &&& s.len() == 9 && s[1] is Publish && s[2] == StepModel::AwaitLive { secs } && s[3]
                == StepModel::StopPublisher && s[4] == StepModel::StartClock && s[5]
                == StepModel::AwaitOff { secs } && s[6] == StepModel::StopClock && s[7]
                == StepModel::ReadHealth { at: Moment::End } && s[8] == StepModel::Judge
        }),
        ({
            let s = srt_disconnect_script(p, secs);
            &&& s.len() == 8 && s[1] is Publish && s[2] == StepModel::AwaitLive { secs } && s[3]
                == StepModel::StopPublisher && s[4] == StepModel::StartClock && s[5]
                == StepModel::AwaitOff { secs } && s[6] == StepModel::StopClock && s[7]
                == StepModel::Judge
        }),
        ({
            let s = file_stop_script(secs);
            &&& s.len() == 9 && s[1] == StepModel::SetFileIngest { repeat: false } && s[2]
                == StepModel::StartFileIngest && s[3] == StepModel::AwaitLive { secs: 30 } && s[4]
                == StepModel::StopFileIngest && s[5] == StepModel::StartClock && s[6]
                == StepModel::AwaitOff { secs } && s[7] == StepModel::StopClock && s[8]
                == StepModel::Judge
        }),
{
}

/// A recording, a transcoder and a preview run until their publisher goes, and are then watched until
/// they are gone; a file that came to its end is started once more.
pub proof fn stop_scripts_watch_what_goes(p: ScenarioPorts, secs: u64)
    ensures
        ({
            let s = recording_stop_script(p, secs);
            &&& s.len() == 13 && s[3] == StepModel::StartRecording && s[4]
                == StepModel::AwaitRecording { active: true, secs: 10 } && s[6]
                == StepModel::StopPublisher && s[8] == StepModel::AwaitOff { secs } && s[9]
                == StepModel::AwaitRecording { active: false, secs: 10 } && s[11]
                == StepModel::FindRecordingFile {
                named: "fault-recording"@,
                in_work_dir: false,
            } && s[12] == StepModel::Judge
        }),
        ({
            let s = transcoder_stop_script(p, secs);
            &&& s.len() == 15 && s[5] == StepModel::StartOutput && s[6]
                == StepModel::AwaitTranscoder { secs: 15 } && s[7] == StepModel::StopPublisher
                && s[9] == StepModel::AwaitOff { secs } && s[10] == StepModel::AwaitTranscoderGone {
                secs: 15,
            } && s[11] == StepModel::ReadStatus { at: Moment::End } && s[13] == StepModel::Judge
        }),
        ({
            let s = preview_stop_script(p, secs);
            &&& s.len() == 12 && s[3] == StepModel::AwaitPlaylist { secs: 15 } && s[4]
                == StepModel::AwaitPreview { active: true, secs: 10 } && s[5]
                == StepModel::StopPublisher && s[7] == StepModel::AwaitOff { secs } && s[8]
                == StepModel::AwaitPreview { active: false, secs: 15 } && s[10]
                == StepModel::AwaitPlaylistGone { secs: 15 } && s[11] == StepModel::Judge
        }),
        ({
            let s = file_end_script();
            &&& s.len() == 13 && s[1] == StepModel::SetFileIngest { repeat: false } && s[2]
                == StepModel::StartFileIngest && s[4] == StepModel::AwaitFileIngest {
                running: true,
                secs: 10,
            } && s[6] == StepModel::AwaitOff { secs: 60 } && s[7] == StepModel::AwaitFileIngest {
                running: false,
                secs: 10,
            } && s[8] == StepModel::StartFileIngest && s[9] == StepModel::AwaitLive { secs: 30 }
                && s[10] == StepModel::StopFileIngest && s[12] == StepModel::Judge
        }),
{
}

} // verus!
