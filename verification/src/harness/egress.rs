//! The scenarios of what goes out: by which protocol, in which codec, and into which file.

use vstd::prelude::*;

use crate::harness::recovery::ScenarioPorts;
use crate::harness::scenario::{
    balanced, publishers_left, publishers_left_push, sinks_left, sinks_left_push, Moment, Script,
    Step, StepModel,
};
use crate::harness::urls::{
    rtmp_address, rtmp_url, srt_address, srt_live_address, srt_read_url, srt_url,
};

verus! {

/// A stream goes out over RTMP and over SRT, and is recorded.
pub open spec fn egress_script(p: ScenarioPorts) -> Seq<StepModel> {
    Seq::empty().push(
        StepModel::CreatePipelineAs { name: "Egress source"@, stream_key: "e2e-src"@ },
    ).push(
        StepModel::Publish { url: rtmp_address(p.rtmp, "e2e-src"@), format: "flv"@, all_streams: false },
    ).push(
        StepModel::AwaitLive { secs: 15 },
    ).push(
        StepModel::CreateOutput { name: "rtmp-egress"@, url: rtmp_address(p.sink, "e2e-rtmp-sink"@), encoding: "source"@ },
    ).push(
        StepModel::OpenSink { port: p.sink },
    ).push(
        StepModel::StartOutput,
    ).push(
        StepModel::CreateSinkPipelineAs { name: "SRT egress sink"@, stream_key: "e2e-srt-sink"@ },
    ).push(
        StepModel::CreateOutput { name: "srt-egress"@, url: srt_address(p.srt, "e2e-srt-sink"@), encoding: "source"@ },
    ).push(
        StepModel::StartOutput,
    ).push(
        StepModel::AwaitFrames { frames: 30, secs: 15, poll_ms: 200 },
    ).push(
        StepModel::Pause { ms: 2_000 },
    ).push(
        StepModel::ReadHealth { at: Moment::End },
    ).push(
        StepModel::StartRecording,
    ).push(
        StepModel::Pause { ms: 6_000 },
    ).push(
        StepModel::StopRecording,
    ).push(
        StepModel::Pause { ms: 2_000 },
    ).push(
        StepModel::FindRecordingFile { named: ""@, in_work_dir: true },
    ).push(
        StepModel::Judge,
    ).push(
        StepModel::StopPublisher,
    ).push(
        StepModel::CloseSink,
    )
}

/// A stream goes out over RTMP and over SRT, and is recorded.
pub fn plan_egress(p: ScenarioPorts) -> (r: Script)
    ensures
        r@ == egress_script(p),
{
    let mut s: Script = Script::new();
    s.add_step(Step::CreatePipelineAs { name: "Egress source".to_string(), stream_key: "e2e-src".to_string() });
    s.add_step(Step::Publish { url: rtmp_url(p.rtmp, "e2e-src"), format: "flv", all_streams: false });
    s.add_step(Step::AwaitLive { secs: 15 });
    s.add_step(Step::CreateOutput { name: "rtmp-egress".to_string(), url: rtmp_url(p.sink, "e2e-rtmp-sink"), encoding: "source".to_string() });
    s.add_step(Step::OpenSink { port: p.sink });
    s.add_step(Step::StartOutput);
    s.add_step(Step::CreateSinkPipelineAs { name: "SRT egress sink".to_string(), stream_key: "e2e-srt-sink".to_string() });
    s.add_step(Step::CreateOutput { name: "srt-egress".to_string(), url: srt_url(p.srt, "e2e-srt-sink"), encoding: "source".to_string() });
    s.add_step(Step::StartOutput);
    s.add_step(Step::AwaitFrames { frames: 30, secs: 15, poll_ms: 200 });
    s.add_step(Step::Pause { ms: 2_000 });
    s.add_step(Step::ReadHealth { at: Moment::End });
    s.add_step(Step::StartRecording);
    s.add_step(Step::Pause { ms: 6_000 });
    s.add_step(Step::StopRecording);
    s.add_step(Step::Pause { ms: 2_000 });
    s.add_step(Step::FindRecordingFile { named: "".to_string(), in_work_dir: true });
    s.add_step(Step::Judge);
    s.add_step(Step::StopPublisher);
    s.add_step(Step::CloseSink);
    s
}

/// A stream comes in over SRT and goes out over RTMP as it is.
pub open spec fn srt_to_rtmp_script(p: ScenarioPorts) -> Seq<StepModel> {
    Seq::empty().push(
        StepModel::CreatePipelineAs { name: "H.264 SRT source"@, stream_key: "e2e-srt-rtmp"@ },
    ).push(
        StepModel::CreateOutput { name: "rtmp-sink"@, url: rtmp_address(p.sink, "e2e-srt-rtmp-sink"@), encoding: "source"@ },
    ).push(
        StepModel::OpenSink { port: p.sink },
    ).push(
        StepModel::Publish { url: srt_address(p.srt, "e2e-srt-rtmp"@), format: "mpegts"@, all_streams: true },
    ).push(
        StepModel::AwaitLive { secs: 15 },
    ).push(
        StepModel::StartOutput,
    ).push(
        StepModel::AwaitFrames { frames: 10, secs: 15, poll_ms: 200 },
    ).push(
        StepModel::Pause { ms: 2_000 },
    ).push(
        StepModel::Judge,
    ).push(
        StepModel::StopPublisher,
    ).push(
        StepModel::CloseSink,
    )
}

/// A stream comes in over SRT and goes out over RTMP as it is.
pub fn plan_srt_to_rtmp(p: ScenarioPorts) -> (r: Script)
    ensures
        r@ == srt_to_rtmp_script(p),
{
    let mut s: Script = Script::new();
    s.add_step(Step::CreatePipelineAs { name: "H.264 SRT source".to_string(), stream_key: "e2e-srt-rtmp".to_string() });
    s.add_step(Step::CreateOutput { name: "rtmp-sink".to_string(), url: rtmp_url(p.sink, "e2e-srt-rtmp-sink"), encoding: "source".to_string() });
    s.add_step(Step::OpenSink { port: p.sink });
    s.add_step(Step::Publish { url: srt_url(p.srt, "e2e-srt-rtmp"), format: "mpegts", all_streams: true });
    s.add_step(Step::AwaitLive { secs: 15 });
    s.add_step(Step::StartOutput);
    s.add_step(Step::AwaitFrames { frames: 10, secs: 15, poll_ms: 200 });
    s.add_step(Step::Pause { ms: 2_000 });
    s.add_step(Step::Judge);
    s.add_step(Step::StopPublisher);
    s.add_step(Step::CloseSink);
    s
}

/// A stream whose frames are shown in another order than they are decoded in.
pub open spec fn bframe_script(p: ScenarioPorts) -> Seq<StepModel> {
    Seq::empty().push(
        StepModel::CreatePipelineAs { name: "B-frame RTMP source"@, stream_key: "e2e-bframe-src"@ },
    ).push(
        StepModel::CreateOutput { name: "bframe-sink"@, url: rtmp_address(p.sink, "e2e-bframe-sink"@), encoding: "source"@ },
    ).push(
        StepModel::OpenSink { port: p.sink },
    ).push(
        StepModel::Publish { url: rtmp_address(p.rtmp, "e2e-bframe-src"@), format: "flv"@, all_streams: false },
    ).push(
        StepModel::AwaitLive { secs: 15 },
    ).push(
        StepModel::StartOutput,
    ).push(
        StepModel::AwaitFrames { frames: 30, secs: 15, poll_ms: 200 },
    ).push(
        StepModel::Pause { ms: 2_000 },
    ).push(
        StepModel::ReadPackets { url: rtmp_address(p.rtmp, "e2e-bframe-src"@), kept: "bframe-packets.json"@, log: "bframe-ffprobe.log"@ },
    ).push(
        StepModel::Judge,
    ).push(
        StepModel::StopPublisher,
    ).push(
        StepModel::CloseSink,
    )
}

/// A stream whose frames are shown in another order than they are decoded in.
pub fn plan_bframe(p: ScenarioPorts) -> (r: Script)
    ensures
        r@ == bframe_script(p),
{
    let mut s: Script = Script::new();
    s.add_step(Step::CreatePipelineAs { name: "B-frame RTMP source".to_string(), stream_key: "e2e-bframe-src".to_string() });
    s.add_step(Step::CreateOutput { name: "bframe-sink".to_string(), url: rtmp_url(p.sink, "e2e-bframe-sink"), encoding: "source".to_string() });
    s.add_step(Step::OpenSink { port: p.sink });
    s.add_step(Step::Publish { url: rtmp_url(p.rtmp, "e2e-bframe-src"), format: "flv", all_streams: false });
    s.add_step(Step::AwaitLive { secs: 15 });
    s.add_step(Step::StartOutput);
    s.add_step(Step::AwaitFrames { frames: 30, secs: 15, poll_ms: 200 });
    s.add_step(Step::Pause { ms: 2_000 });
    s.add_step(
        Step::ReadPackets {
            url: rtmp_url(p.rtmp, "e2e-bframe-src"),
            kept: "bframe-packets.json",
            log: "bframe-ffprobe.log",
        },
    );
    s.add_step(Step::Judge);
    s.add_step(Step::StopPublisher);
    s.add_step(Step::CloseSink);
    s
}

/// A stream comes in as H.265 and goes out over RTMP as H.264.
pub open spec fn hevc_rtmp_script(p: ScenarioPorts) -> Seq<StepModel> {
    Seq::empty().push(
        StepModel::CreatePipelineAs { name: "H.265 SRT source"@, stream_key: "e2e-hevc"@ },
    ).push(
        StepModel::Publish { url: srt_address(p.srt, "e2e-hevc"@), format: "mpegts"@, all_streams: true },
    ).push(
        StepModel::AwaitLive { secs: 15 },
    ).push(
        StepModel::ReadSource,
    ).push(
        StepModel::CreateOutput { name: "hevc-rtmp"@, url: rtmp_address(p.sink, "e2e-hevc-sink"@), encoding: "h264"@ },
    ).push(
        StepModel::OpenSink { port: p.sink },
    ).push(
        StepModel::StartOutput,
    ).push(
        StepModel::AwaitFrames { frames: 30, secs: 20, poll_ms: 200 },
    ).push(
        StepModel::Pause { ms: 2_000 },
    ).push(
        StepModel::Judge,
    ).push(
        StepModel::StopPublisher,
    ).push(
        StepModel::CloseSink,
    )
}

/// A stream comes in as H.265 and goes out over RTMP as H.264.
pub fn plan_hevc_rtmp(p: ScenarioPorts) -> (r: Script)
    ensures
        r@ == hevc_rtmp_script(p),
{
    let mut s: Script = Script::new();
    s.add_step(Step::CreatePipelineAs { name: "H.265 SRT source".to_string(), stream_key: "e2e-hevc".to_string() });
    s.add_step(Step::Publish { url: srt_url(p.srt, "e2e-hevc"), format: "mpegts", all_streams: true });
    s.add_step(Step::AwaitLive { secs: 15 });
    s.add_step(Step::ReadSource);
    s.add_step(Step::CreateOutput { name: "hevc-rtmp".to_string(), url: rtmp_url(p.sink, "e2e-hevc-sink"), encoding: "h264".to_string() });
    s.add_step(Step::OpenSink { port: p.sink });
    s.add_step(Step::StartOutput);
    s.add_step(Step::AwaitFrames { frames: 30, secs: 20, poll_ms: 200 });
    s.add_step(Step::Pause { ms: 2_000 });
    s.add_step(Step::Judge);
    s.add_step(Step::StopPublisher);
    s.add_step(Step::CloseSink);
    s
}

/// A stream comes in as H.265 and goes out over SRT unchanged.
pub open spec fn hevc_srt_script(p: ScenarioPorts) -> Seq<StepModel> {
    Seq::empty().push(
        StepModel::CreatePipelineAs { name: "H.265 SRT source"@, stream_key: "e2e-hevc-srt"@ },
    ).push(
        StepModel::CreateSinkPipelineAs { name: "H.265 SRT passthrough sink"@, stream_key: "e2e-hevc-srt-sink"@ },
    ).push(
        StepModel::Publish { url: srt_address(p.srt, "e2e-hevc-srt"@), format: "mpegts"@, all_streams: true },
    ).push(
        StepModel::AwaitLive { secs: 15 },
    ).push(
        StepModel::CreateOutput { name: "srt-passthrough"@, url: srt_address(p.srt, "e2e-hevc-srt-sink"@), encoding: "source"@ },
    ).push(
        StepModel::StartOutput,
    ).push(
        StepModel::AwaitSinkPipelineLive { secs: 15 },
    ).push(
        StepModel::Pause { ms: 3_000 },
    ).push(
        StepModel::ReadStream { url: srt_live_address(p.srt, "e2e-hevc-srt-sink"@) },
    ).push(
        StepModel::Judge,
    ).push(
        StepModel::StopPublisher,
    )
}

/// A stream comes in as H.265 and goes out over SRT unchanged.
pub fn plan_hevc_srt(p: ScenarioPorts) -> (r: Script)
    ensures
        r@ == hevc_srt_script(p),
{
    let mut s: Script = Script::new();
    s.add_step(Step::CreatePipelineAs { name: "H.265 SRT source".to_string(), stream_key: "e2e-hevc-srt".to_string() });
    s.add_step(Step::CreateSinkPipelineAs { name: "H.265 SRT passthrough sink".to_string(), stream_key: "e2e-hevc-srt-sink".to_string() });
    s.add_step(Step::Publish { url: srt_url(p.srt, "e2e-hevc-srt"), format: "mpegts", all_streams: true });
    s.add_step(Step::AwaitLive { secs: 15 });
    s.add_step(Step::CreateOutput { name: "srt-passthrough".to_string(), url: srt_url(p.srt, "e2e-hevc-srt-sink"), encoding: "source".to_string() });
    s.add_step(Step::StartOutput);
    s.add_step(Step::AwaitSinkPipelineLive { secs: 15 });
    s.add_step(Step::Pause { ms: 3_000 });
    s.add_step(Step::ReadStream { url: srt_read_url(p.srt, "e2e-hevc-srt-sink", &None) });
    s.add_step(Step::Judge);
    s.add_step(Step::StopPublisher);
    s
}

// ── Laws ─────────────────────────────────────────────────────────────────────

/// Every one of these scenarios stops the publisher that it starts, and closes its sink.
pub proof fn egress_scripts_are_balanced(p: ScenarioPorts)
    ensures
        balanced(egress_script(p)),
        balanced(srt_to_rtmp_script(p)),
        balanced(bframe_script(p)),
        balanced(hevc_rtmp_script(p)),
        balanced(hevc_srt_script(p)),
{
    broadcast use {publishers_left_push, sinks_left_push};

    assert(publishers_left(Seq::<StepModel>::empty()) == 0);
    assert(sinks_left(Seq::<StepModel>::empty()) == 0);
}

/// What goes out over RTMP goes to the sink, what goes out over SRT comes back into the server, and
/// the recording is looked for once it has stopped; then all three are judged.
pub proof fn egress_script_takes_three_ways_out(p: ScenarioPorts)
    ensures
        ({
            let s = egress_script(p);
            &&& s.len() == 20
            &&& s[3] == StepModel::CreateOutput {
                name: "rtmp-egress"@,
                url: rtmp_address(p.sink, "e2e-rtmp-sink"@),
                encoding: "source"@,
            } && s[4] == StepModel::OpenSink { port: p.sink } && s[5] == StepModel::StartOutput
            &&& s[6] == StepModel::CreateSinkPipelineAs {
                name: "SRT egress sink"@,
                stream_key: "e2e-srt-sink"@,
            } && s[7] == StepModel::CreateOutput {
                name: "srt-egress"@,
                url: srt_address(p.srt, "e2e-srt-sink"@),
                encoding: "source"@,
            } && s[8] == StepModel::StartOutput
            &&& s[9] == StepModel::AwaitFrames { frames: 30, secs: 15, poll_ms: 200 } && s[11]
                == StepModel::ReadHealth { at: Moment::End }
            &&& s[12] == StepModel::StartRecording && s[13] == StepModel::Pause { ms: 6000 } && s[14]
                == StepModel::StopRecording && s[16] == StepModel::FindRecordingFile {
                named: ""@,
                in_work_dir: true,
            } && s[17] == StepModel::Judge
        }),
{
}

/// An SRT source is sent on over RTMP as it is, and an H.265 one as H.264, which the server has to
/// have taken for H.265 before; B-frames are read from the server once enough of them have come.
pub proof fn conversion_scripts_send_what_they_judge(p: ScenarioPorts)
    ensures
        ({
            let s = srt_to_rtmp_script(p);
            &&& s.len() == 11 && s[1] == StepModel::CreateOutput {
                name: "rtmp-sink"@,
                url: rtmp_address(p.sink, "e2e-srt-rtmp-sink"@),
                encoding: "source"@,
            } && s[3] == StepModel::Publish {
                url: srt_address(p.srt, "e2e-srt-rtmp"@),
                format: "mpegts"@,
                all_streams: true,
            } && s[6] == StepModel::AwaitFrames { frames: 10, secs: 15, poll_ms: 200 } && s[8]
                == StepModel::Judge
        }),
        ({
            let s = hevc_rtmp_script(p);
            &&& s.len() == 12 && s[3] == StepModel::ReadSource && s[4] == StepModel::CreateOutput {
                name: "hevc-rtmp"@,
                url: rtmp_address(p.sink, "e2e-hevc-sink"@),
                encoding: "h264"@,
            } && s[7] == StepModel::AwaitFrames { frames: 30, secs: 20, poll_ms: 200 } && s[9]
                == StepModel::Judge
        }),
        ({
            let s = bframe_script(p);
            &&& s.len() == 12 && s[6] == StepModel::AwaitFrames {
                frames: 30,
                secs: 15,
                poll_ms: 200,
            } && s[8] == StepModel::ReadPackets {
                url: rtmp_address(p.rtmp, "e2e-bframe-src"@),
                kept: "bframe-packets.json"@,
                log: "bframe-ffprobe.log"@,
            } && s[9] == StepModel::Judge
        }),
{
}

/// An H.265 stream goes out over SRT and back in, and is read where it came in.
pub proof fn passthrough_script_reads_what_came_back(p: ScenarioPorts)
    ensures
        ({
            let s = hevc_srt_script(p);
            &&& s.len() == 11 && s[1] == StepModel::CreateSinkPipelineAs {
                name: "H.265 SRT passthrough sink"@,
                stream_key: "e2e-hevc-srt-sink"@,
            } && s[4] == StepModel::CreateOutput {
                name: "srt-passthrough"@,
                url: srt_address(p.srt, "e2e-hevc-srt-sink"@),
                encoding: "source"@,
            } && s[6] == StepModel::AwaitSinkPipelineLive { secs: 15 } && s[8]
                == StepModel::ReadStream { url: srt_live_address(p.srt, "e2e-hevc-srt-sink"@) }
                && s[9] == StepModel::Judge
        }),
{
}

} // verus!
