//! The steps that scenarios are made of.
//!
//! A scenario is a script: a list of steps that whoever drives it performs one after another. A
//! step that fails ends the scenario, unless its outcome is something that the scenario judges.

use vstd::prelude::*;

verus! {

/// At which point of a scenario the server is asked.
#[derive(Debug, Clone, Copy, PartialEq, Eq, Structural)]
pub enum Moment {
    /// While the publisher is gone.
    Gap,
    /// At the end.
    End,
}

/// One step of a scenario.
#[derive(Debug, Clone)]
pub enum Step {
    /// Create a pipeline, by this name and with this stream key.
    CreatePipeline { name: String },
    /// Create a pipeline, by this name and with another stream key.
    CreatePipelineAs { name: String, stream_key: String },
    /// Create a second pipeline that an output of the first one publishes to.
    CreateSinkPipeline { name: String },
    /// The same, with a stream key that is not its name.
    CreateSinkPipelineAs { name: String, stream_key: String },
    DeleteSinkPipeline,
    /// Start an RTMP sink that counts what it receives.
    OpenSink { port: u16 },
    /// Stop the sink and cut its connections.
    CloseSink,
    /// Start a sink that takes uploads and never answers in this time.
    OpenHangingUploadSink { port: u16, secs: u64 },
    /// Start a sink that keeps the uploads in a directory.
    OpenUploadSink { port: u16, dir: String },
    CloseUploadSink,
    CreateOutput { name: String, url: String, encoding: String },
    StartOutput,
    StopOutput,
    /// Start a publisher; all streams of the fixture, or the video and the first audio.
    Publish { url: String, format: &'static str, all_streams: bool },
    StopPublisher,
    /// Feed the pipeline from a file of the media directory.
    SetFileIngest { repeat: bool },
    StartFileIngest,
    StopFileIngest,
    StartRecording,
    StopRecording,
    AwaitLive { secs: u64 },
    AwaitOff { secs: u64 },
    AwaitMediaReady { secs: u64 },
    AwaitSinkPipelineLive { secs: u64 },
    AwaitRecording { active: bool, secs: u64 },
    AwaitFileIngest { running: bool, secs: u64 },
    AwaitPlaylist { secs: u64 },
    AwaitPlaylistGone { secs: u64 },
    AwaitPreview { active: bool, secs: u64 },
    AwaitUploads { secs: u64 },
    AwaitTranscoder { secs: u64 },
    AwaitTranscoderGone { secs: u64 },
    /// Wait until the sink has received so many frames.
    AwaitFrames { frames: u64, secs: u64, poll_ms: u64 },
    /// Wait until the sink has received more than so many frames since the baseline.
    AwaitMoreFrames { frames: u64, secs: u64, poll_ms: u64 },
    /// Wait until the status of the output shows that it runs again.
    AwaitRunning { secs: u64, poll_ms: u64 },
    /// Ask again and again until the output is seen to be retried.
    WatchRetry { secs: u64, poll_ms: u64 },
    /// Ask again and again until the loss of the target is seen.
    WatchLoss { secs: u64, poll_ms: u64 },
    /// From here on the time is taken.
    StartClock,
    /// Up to here the time is taken.
    StopClock,
    /// Note how many frames and connections the sink has had.
    NoteBaseline,
    ReadStatus { at: Moment },
    ReadHealth { at: Moment },
    ReadUploadRequests,
    /// Ask the server what it takes the source to be.
    ReadSource,
    /// Probe what can be read at an address.
    ReadStream { url: String },
    /// Probe the packets that can be read at an address. What the probe prints is kept in a file of
    /// the working directory, what it tells in one among the artifacts.
    ReadPackets { url: String, kept: &'static str, log: &'static str },
    /// Look for a recording in the media directory, that of the working directory or the one that
    /// is just called so.
    FindRecordingFile { named: String, in_work_dir: bool },
    Pause { ms: u64 },
    /// Hold what was seen against what is expected.
    Judge,
}

/// What a step says.
pub enum StepModel {
    CreatePipeline { name: Seq<char> },
    CreatePipelineAs { name: Seq<char>, stream_key: Seq<char> },
    CreateSinkPipeline { name: Seq<char> },
    CreateSinkPipelineAs { name: Seq<char>, stream_key: Seq<char> },
    DeleteSinkPipeline,
    OpenSink { port: u16 },
    CloseSink,
    OpenHangingUploadSink { port: u16, secs: u64 },
    OpenUploadSink { port: u16, dir: Seq<char> },
    CloseUploadSink,
    CreateOutput { name: Seq<char>, url: Seq<char>, encoding: Seq<char> },
    StartOutput,
    StopOutput,
    Publish { url: Seq<char>, format: Seq<char>, all_streams: bool },
    StopPublisher,
    SetFileIngest { repeat: bool },
    StartFileIngest,
    StopFileIngest,
    StartRecording,
    StopRecording,
    AwaitLive { secs: u64 },
    AwaitOff { secs: u64 },
    AwaitMediaReady { secs: u64 },
    AwaitSinkPipelineLive { secs: u64 },
    AwaitRecording { active: bool, secs: u64 },
    AwaitFileIngest { running: bool, secs: u64 },
    AwaitPlaylist { secs: u64 },
    AwaitPlaylistGone { secs: u64 },
    AwaitPreview { active: bool, secs: u64 },
    AwaitUploads { secs: u64 },
    AwaitTranscoder { secs: u64 },
    AwaitTranscoderGone { secs: u64 },
    AwaitFrames { frames: u64, secs: u64, poll_ms: u64 },
    AwaitMoreFrames { frames: u64, secs: u64, poll_ms: u64 },
    AwaitRunning { secs: u64, poll_ms: u64 },
    WatchRetry { secs: u64, poll_ms: u64 },
    WatchLoss { secs: u64, poll_ms: u64 },
    StartClock,
    StopClock,
    NoteBaseline,
    ReadStatus { at: Moment },
    ReadHealth { at: Moment },
    ReadUploadRequests,
    ReadSource,
    ReadStream { url: Seq<char> },
    ReadPackets { url: Seq<char>, kept: Seq<char>, log: Seq<char> },
    FindRecordingFile { named: Seq<char>, in_work_dir: bool },
    Pause { ms: u64 },
    Judge,
}

impl View for Step {
    type V = StepModel;

    open spec fn view(&self) -> StepModel {
        match self {
            Step::CreatePipeline { name } => StepModel::CreatePipeline { name: name@ },
            Step::CreatePipelineAs { name, stream_key } => StepModel::CreatePipelineAs {
                name: name@,
                stream_key: stream_key@,
            },
            Step::CreateSinkPipeline { name } => StepModel::CreateSinkPipeline { name: name@ },
            Step::CreateSinkPipelineAs { name, stream_key } => StepModel::CreateSinkPipelineAs {
                name: name@,
                stream_key: stream_key@,
            },
            Step::DeleteSinkPipeline => StepModel::DeleteSinkPipeline,
            Step::OpenSink { port } => StepModel::OpenSink { port: *port },
            Step::CloseSink => StepModel::CloseSink,
            Step::OpenHangingUploadSink { port, secs } => StepModel::OpenHangingUploadSink {
                port: *port,
                secs: *secs,
            },
            Step::OpenUploadSink { port, dir } => StepModel::OpenUploadSink {
                port: *port,
                dir: dir@,
            },
            Step::CloseUploadSink => StepModel::CloseUploadSink,
            Step::CreateOutput { name, url, encoding } => StepModel::CreateOutput {
                name: name@,
                url: url@,
                encoding: encoding@,
            },
            Step::StartOutput => StepModel::StartOutput,
            Step::StopOutput => StepModel::StopOutput,
            Step::Publish { url, format, all_streams } => StepModel::Publish {
                url: url@,
                format: format@,
                all_streams: *all_streams,
            },
            Step::StopPublisher => StepModel::StopPublisher,
            Step::SetFileIngest { repeat } => StepModel::SetFileIngest { repeat: *repeat },
            Step::StartFileIngest => StepModel::StartFileIngest,
            Step::StopFileIngest => StepModel::StopFileIngest,
            Step::StartRecording => StepModel::StartRecording,
            Step::StopRecording => StepModel::StopRecording,
            Step::AwaitLive { secs } => StepModel::AwaitLive { secs: *secs },
            Step::AwaitOff { secs } => StepModel::AwaitOff { secs: *secs },
            Step::AwaitMediaReady { secs } => StepModel::AwaitMediaReady { secs: *secs },
            Step::AwaitSinkPipelineLive { secs } => StepModel::AwaitSinkPipelineLive {
                secs: *secs,
            },
            Step::AwaitRecording { active, secs } => StepModel::AwaitRecording {
                active: *active,
                secs: *secs,
            },
            Step::AwaitFileIngest { running, secs } => StepModel::AwaitFileIngest {
                running: *running,
                secs: *secs,
            },
            Step::AwaitPlaylist { secs } => StepModel::AwaitPlaylist { secs: *secs },
            Step::AwaitPlaylistGone { secs } => StepModel::AwaitPlaylistGone { secs: *secs },
            Step::AwaitPreview { active, secs } => StepModel::AwaitPreview {
                active: *active,
                secs: *secs,
            },
            Step::AwaitUploads { secs } => StepModel::AwaitUploads { secs: *secs },
            Step::AwaitTranscoder { secs } => StepModel::AwaitTranscoder { secs: *secs },
            Step::AwaitTranscoderGone { secs } => StepModel::AwaitTranscoderGone { secs: *secs },
            Step::AwaitFrames { frames, secs, poll_ms } => StepModel::AwaitFrames {
                frames: *frames,
                secs: *secs,
                poll_ms: *poll_ms,
            },
            Step::AwaitMoreFrames { frames, secs, poll_ms } => StepModel::AwaitMoreFrames {
                frames: *frames,
                secs: *secs,
                poll_ms: *poll_ms,
            },
            Step::AwaitRunning { secs, poll_ms } => StepModel::AwaitRunning {
                secs: *secs,
                poll_ms: *poll_ms,
            },
            Step::WatchRetry { secs, poll_ms } => StepModel::WatchRetry {
                secs: *secs,
                poll_ms: *poll_ms,
            },
            Step::WatchLoss { secs, poll_ms } => StepModel::WatchLoss {
                secs: *secs,
                poll_ms: *poll_ms,
            },
            Step::StartClock => StepModel::StartClock,
            Step::StopClock => StepModel::StopClock,
            Step::NoteBaseline => StepModel::NoteBaseline,
            Step::ReadStatus { at } => StepModel::ReadStatus { at: *at },
            Step::ReadHealth { at } => StepModel::ReadHealth { at: *at },
            Step::ReadUploadRequests => StepModel::ReadUploadRequests,
            Step::ReadSource => StepModel::ReadSource,
            Step::ReadStream { url } => StepModel::ReadStream { url: url@ },
            Step::ReadPackets { url, kept, log } => StepModel::ReadPackets {
                url: url@,
                kept: kept@,
                log: log@,
            },
            Step::FindRecordingFile { named, in_work_dir } => StepModel::FindRecordingFile {
                named: named@,
                in_work_dir: *in_work_dir,
            },
            Step::Pause { ms } => StepModel::Pause { ms: *ms },
            Step::Judge => StepModel::Judge,
        }
    }
}

/// What a list of steps says.
pub open spec fn steps_of(v: Seq<Step>) -> Seq<StepModel> {
    v.map_values(|s: Step| s@)
}

/// A script of steps.
#[derive(Debug, Clone)]
pub struct Script {
    pub steps: Vec<Step>,
}

impl View for Script {
    type V = Seq<StepModel>;

    open spec fn view(&self) -> Seq<StepModel> {
        steps_of(self.steps@)
    }
}

impl Script {
    pub fn new() -> (r: Self)
        ensures
            r@ == Seq::<StepModel>::empty(),
    {
        let r: Script = Script { steps: Vec::new() };
        assert(r@ =~= Seq::<StepModel>::empty());
        r
    }

    /// Adds a step at the end.
    pub fn add_step(&mut self, step: Step)
        ensures
            final(self)@ == old(self)@.push(step@),
    {
        self.steps.push(step);
        assert(self@ =~= old(self)@.push(step@));
    }
}

// ── What a script keeps in balance ───────────────────────────────────────────

/// How many publishers are left running after the steps, where each one stops the last.
pub open spec fn publishers_left(s: Seq<StepModel>) -> int
    decreases s.len(),
{
    if s.len() == 0 {
        0
    } else {
        publishers_left(s.drop_last()) + match s.last() {
            StepModel::Publish { .. } => 1int,
            StepModel::StopPublisher => -1int,
            _ => 0int,
        }
    }
}

/// How many sinks are left open after the steps.
pub open spec fn sinks_left(s: Seq<StepModel>) -> int
    decreases s.len(),
{
    if s.len() == 0 {
        0
    } else {
        sinks_left(s.drop_last()) + match s.last() {
            StepModel::OpenSink { .. } => 1int,
            StepModel::CloseSink => -1int,
            StepModel::OpenHangingUploadSink { .. } => 1int,
            StepModel::OpenUploadSink { .. } => 1int,
            StepModel::CloseUploadSink => -1int,
            _ => 0int,
        }
    }
}

/// One more step, for the publishers.
pub broadcast proof fn publishers_left_push(s: Seq<StepModel>, step: StepModel)
    ensures
        #[trigger] publishers_left(s.push(step)) == publishers_left(s) + (match step {
            StepModel::Publish { .. } => 1int,
            StepModel::StopPublisher => -1int,
            _ => 0int,
        }),
{
    assert(s.push(step).drop_last() =~= s);
}

/// One more step, for the sinks.
pub broadcast proof fn sinks_left_push(s: Seq<StepModel>, step: StepModel)
    ensures
        #[trigger] sinks_left(s.push(step)) == sinks_left(s) + (match step {
            StepModel::OpenSink { .. } => 1int,
            StepModel::CloseSink => -1int,
            StepModel::OpenHangingUploadSink { .. } => 1int,
            StepModel::OpenUploadSink { .. } => 1int,
            StepModel::CloseUploadSink => -1int,
            _ => 0int,
        }),
{
    assert(s.push(step).drop_last() =~= s);
}

/// Whether a script stops every publisher that it starts and closes every sink that it opens.
pub open spec fn balanced(s: Seq<StepModel>) -> bool {
    publishers_left(s) == 0 && sinks_left(s) == 0
}

} // verus!
