//! What is written down of the correctness scenarios, of ramps, of mixed runs and of a preflight.

use vstd::prelude::*;
use vstd::string::*;

use crate::harness::graph::BurstReport;
use crate::harness::judge::{
    codec_in, judge_passthrough, media_fault, sink_received, Passthrough, ProtocolTrial,
};
use crate::harness::probe::{
    media_places, normalized_streams, shows_all, summaries_json, summarize_all, StreamSummary,
};
use crate::harness::ramp::{Protocol, RampConfig};
use crate::harness::setup::RunPaths;
use crate::harness::sink::{
    bframe_fault, bframe_message, name_option, sink_cells, transcode_to_h264_passed, video_in_order,
    GeneralizedSinkMetrics,
};
use crate::harness::suite::{preflight_passes, PreflightFindings};
use crate::harness::sweep::StreamWatch;
use crate::harness::verdicts::{
    is_adequate, is_resized, ring_adequate, ring_resized, AudioWatch, RingReading,
};
use crate::json::Json;
use crate::number::decimal;
use crate::record::{
    cell_of, cells_of, is_record, is_record_with, text_cell, value_cell, whole_cell, Cell, Record,
};
use crate::text::{text_option, texts};

verus! {

// ── What goes out ────────────────────────────────────────────────────────────

/// What the record of a sink that should have received at least so many frames says.
pub open spec fn delivery_cells(m: GeneralizedSinkMetrics, min_video: u64) -> Seq<(Seq<char>, Cell)> {
    Seq::empty().push(
        ("passed"@, Cell::Flag(m.video_count >= min_video && m.audio_count > 0 && video_in_order(m.packets@))),
    ).push(
        ("dtsMonotone"@, Cell::Flag(video_in_order(m.packets@))),
    ).push(
        ("videoCount"@, Cell::Whole(m.video_count as int)),
    ).push(
        ("audioCount"@, Cell::Whole(m.audio_count as int)),
    )
}

/// The record of a sink that should have received at least so many frames, with what it received.
pub fn delivery_record(m: &GeneralizedSinkMetrics, min_video: u64) -> (r: Json)
    ensures
        is_record_with(r, delivery_cells(*m, min_video), "sink"@, sink_cells(*m)),
{
    let mut f: Record = Record::new();
    f.add_flag("passed", sink_received(m, min_video));
    f.add_flag("dtsMonotone", m.dts_monotone());
    f.add_whole("videoCount", m.video_count);
    f.add_whole("audioCount", m.audio_count);
    f.finish_with("sink", m.summary())
}

/// What the record of a stream that went out by SRT, into a pipeline of the same server, says.
pub open spec fn srt_egress_cells(pipeline: Seq<char>, takes_in: bool) -> Seq<(Seq<char>, Cell)> {
    Seq::empty().push(
        ("passed"@, Cell::Flag(takes_in)),
    ).push(
        ("srtSinkPipelineId"@, Cell::Text(pipeline)),
    ).push(
        ("activeIngest"@, Cell::Flag(takes_in)),
    )
}

/// What the record of a recording says.
pub open spec fn recording_cells(judged: Result<usize, String>, file: Seq<char>) -> Seq<(Seq<char>, Cell)> {
    match judged {
        Ok(streams) => Seq::empty().push(
            ("passed"@, Cell::Flag(true)),
        ).push(
            ("file"@, Cell::Text(file)),
        ).push(
            ("streamCount"@, Cell::Whole(streams as int)),
        ),
        Err(error) => Seq::empty().push(
            ("passed"@, Cell::Flag(false)),
        ).push(
            ("error"@, Cell::Text(error@)),
        ),
    }
}

fn srt_egress_record(pipeline: &str, takes_in: bool) -> (r: Json)
    ensures
        is_record(r, srt_egress_cells(pipeline@, takes_in)),
{
    let mut f: Record = Record::new();
    f.add_flag("passed", takes_in);
    f.add_text("srtSinkPipelineId", pipeline);
    f.add_flag("activeIngest", takes_in);
    f.finish()
}

fn recording_record(judged: &Result<usize, String>, file: &str) -> (r: Json)
    ensures
        is_record(r, recording_cells(*judged, file@)),
{
    let mut f: Record = Record::new();
    match judged {
        Ok(streams) => {
            f.add_flag("passed", true);
            f.add_text("file", file);
            f.add_whole("streamCount", *streams as u64);
        },
        Err(error) => {
            f.add_flag("passed", false);
            f.add_text("error", error.as_str());
        },
    }
    f.finish()
}

/// Whether a value is the record of all that goes out: by RTMP, by SRT, and into a recording. It
/// passed where all three did.
pub open spec fn is_egress_record(
    j: Json,
    m: GeneralizedSinkMetrics,
    pipeline: Seq<char>,
    takes_in: bool,
    judged: Result<usize, String>,
    file: Seq<char>,
) -> bool {
    let received = m.video_count >= 30 && m.audio_count > 0 && video_in_order(m.packets@);
    j matches Json::Object(f) && f@.len() == 4 && f@[0].0@ == "rtmpEgress"@ && is_record_with(
        f@[0].1,
        delivery_cells(m, 30),
        "sink"@,
        sink_cells(m),
    ) && f@[1].0@ == "srtEgress"@ && is_record(f@[1].1, srt_egress_cells(pipeline, takes_in))
        && f@[2].0@ == "recording"@ && is_record(f@[2].1, recording_cells(judged, file))
        && f@[3].0@ == "passed"@ && f@[3].1 == Json::Bool(received && takes_in && judged is Ok)
}

/// The record of all that goes out, and whether it passed.
pub fn egress_record(
    m: &GeneralizedSinkMetrics,
    pipeline: &str,
    takes_in: bool,
    judged: &Result<usize, String>,
    file: &str,
) -> (r: (Json, bool))
    ensures
        is_egress_record(r.0, *m, pipeline@, takes_in, *judged, file@),
        r.1 == (m.video_count >= 30 && m.audio_count > 0 && video_in_order(m.packets@) && takes_in
            && judged is Ok),
{
    let passed: bool = sink_received(m, 30) && takes_in && judged.is_ok();
    let mut f: Vec<(String, Json)> = Vec::new();
    f.push(("rtmpEgress".to_string(), delivery_record(m, 30)));
    f.push(("srtEgress".to_string(), srt_egress_record(pipeline, takes_in)));
    f.push(("recording".to_string(), recording_record(judged, file)));
    f.push(("passed".to_string(), Json::Bool(passed)));
    (Json::Object(f), passed)
}

/// What is wrong with B-frames that came through, as it is said.
pub open spec fn bframe_error(packets: usize, bframes: usize, in_order: bool) -> Option<Seq<char>> {
    if packets < 30 {
        Some("expected at least 30 video packets, got "@ + decimal(packets as nat))
    } else if bframes == 0 {
        Some("RTMP egress did not expose any packets with PTS > DTS"@)
    } else if !in_order {
        Some("RTMP egress DTS values are not monotone"@)
    } else {
        None
    }
}

/// What the record of B-frames that came through says: the error only where there is one.
pub open spec fn bframe_cells(
    packets: usize,
    bframes: usize,
    probe_monotone: bool,
    m: GeneralizedSinkMetrics,
) -> Seq<(Seq<char>, Cell)> {
    let error = bframe_error(packets, bframes, probe_monotone && video_in_order(m.packets@));
    let told = Seq::empty().push(
        ("passed"@, Cell::Flag(error is None)),
    ).push(
        ("packetCount"@, Cell::Whole(packets as int)),
    ).push(
        ("bframeCount"@, Cell::Whole(bframes as int)),
    ).push(
        ("ffprobeDtsMonotone"@, Cell::Flag(probe_monotone)),
    ).push(
        ("sinkDtsMonotone"@, Cell::Flag(video_in_order(m.packets@))),
    ).push(
        ("sinkVideoCount"@, Cell::Whole(m.video_count as int)),
    );
    match error {
        Some(e) => told.push(("error"@, Cell::Text(e))),
        None => told,
    }
}

/// The record of B-frames that came through, and what is wrong with them.
pub fn bframe_record(
    packets: usize,
    bframes: usize,
    probe_monotone: bool,
    m: &GeneralizedSinkMetrics,
) -> (r: (Json, Option<String>))
    ensures
        is_record_with(
            r.0,
            bframe_cells(packets, bframes, probe_monotone, *m),
            "sink"@,
            sink_cells(*m),
        ),
        text_option(r.1) == bframe_error(
            packets,
            bframes,
            probe_monotone && video_in_order(m.packets@),
        ),
{
    let sink_monotone: bool = m.dts_monotone();
    let error: Option<String> = match bframe_fault(packets, bframes, probe_monotone, sink_monotone) {
        Some(fault) => Some(bframe_message(fault, packets)),
        None => None,
    };
    let mut f: Record = Record::new();
    f.add_flag("passed", error.is_none());
    f.add_whole("packetCount", packets as u64);
    f.add_whole("bframeCount", bframes as u64);
    f.add_flag("ffprobeDtsMonotone", probe_monotone);
    f.add_flag("sinkDtsMonotone", sink_monotone);
    f.add_whole("sinkVideoCount", m.video_count);
    if let Some(e) = &error {
        f.add_text("error", e.as_str());
    }
    (f.finish_with("sink", m.summary()), error)
}

/// What the record of an H.265 source that went out as H.264 with AAC says.
pub open spec fn transcode_cells(m: GeneralizedSinkMetrics) -> Seq<(Seq<char>, Cell)> {
    Seq::empty().push(
        ("passed"@, Cell::Flag(m.video_count >= 30 && m.audio_count > 0 && video_in_order(m.packets@) && name_option(m.video_codec) == Some("h264"@) && name_option(m.audio_codec) == Some("aac"@))),
    ).push(
        ("dtsMonotone"@, Cell::Flag(video_in_order(m.packets@))),
    ).push(
        ("videoCount"@, Cell::Whole(m.video_count as int)),
    ).push(
        ("audioCount"@, Cell::Whole(m.audio_count as int)),
    ).push(
        ("videoCodec"@, text_cell(name_option(m.video_codec))),
    ).push(
        ("audioCodec"@, text_cell(name_option(m.audio_codec))),
    )
}

fn named(codec: Option<&'static str>) -> (r: Option<String>)
    ensures
        text_option(r) == name_option(codec),
{
    match codec {
        Some(name) => Some(name.to_string()),
        None => None,
    }
}

/// The record of an H.265 source that went out as H.264 with AAC, with what the sink received.
pub fn transcode_record(m: &GeneralizedSinkMetrics) -> (r: Json)
    ensures
        is_record_with(r, transcode_cells(*m), "sink"@, sink_cells(*m)),
{
    let mut f: Record = Record::new();
    f.add_flag("passed", transcode_to_h264_passed(m));
    f.add_flag("dtsMonotone", m.dts_monotone());
    f.add_whole("videoCount", m.video_count);
    f.add_whole("audioCount", m.audio_count);
    f.add_text_or_null("videoCodec", &named(m.video_codec));
    f.add_text_or_null("audioCodec", &named(m.audio_codec));
    f.finish_with("sink", m.summary())
}

/// Whether an H.265 stream came through unchanged.
pub open spec fn passes_through(probe: Json) -> bool {
    media_fault(probe, "HEVC SRT passthrough"@) is None && is_hevc(probe) && is_aac(probe)
}

/// Whether the video of a probe is H.265.
pub open spec fn is_hevc(probe: Json) -> bool {
    codec_in(probe, "video"@) == Some("hevc"@) || codec_in(probe, "video"@) == Some("h265"@)
}

/// Whether the audio of a probe is AAC.
pub open spec fn is_aac(probe: Json) -> bool {
    codec_in(probe, "audio"@) == Some("aac"@)
}

/// What the record of a stream that should have come through unchanged says, but for its streams.
pub open spec fn passthrough_cells(probe: Json) -> Seq<(Seq<char>, Cell)> {
    let fault = media_fault(probe, "HEVC SRT passthrough"@);
    let told = Seq::empty().push(
        ("passed"@, Cell::Flag(passes_through(probe))),
    ).push(
        (
            "videoCodec"@,
            Cell::Text(
                if is_hevc(probe) {
                    "hevc"@
                } else {
                    "NOT_hevc"@
                },
            ),
        ),
    ).push(
        (
            "audioCodec"@,
            Cell::Text(
                if is_aac(probe) {
                    "aac"@
                } else {
                    "NOT_aac"@
                },
            ),
        ),
    ).push(
        ("mediaCheck"@, Cell::Flag(fault is None)),
    ).push(
        ("mediaError"@, text_cell(fault)),
    ).push(
        ("probe"@, cell_of(probe)),
    );
    if is_hevc(probe) {
        told
    } else {
        told.push(
            ("error"@, Cell::Text("SRT output video codec is not HEVC — passthrough failed"@)),
        )
    }
}

/// Whether a value is the record of a stream that should have come through unchanged: its streams
/// are shown last, where the probe has any.
pub open spec fn is_passthrough_record(j: Json, probe: Json) -> bool {
    j matches Json::Object(f) && match probe.list_field("streams"@) {
        None => cells_of(f@) == passthrough_cells(probe),
        Some(streams) => f@.len() > 0 && cells_of(f@.drop_last()) == passthrough_cells(probe)
            && f@.last().0@ == "streams"@ && exists|s: Seq<StreamSummary>| #[trigger]
            summarize_all(s, streams, media_places(streams)) && shows_all(f@.last().1, s),
    }
}

/// The record of a stream that should have come through unchanged, and whether it did.
pub fn passthrough_record(probe: Json) -> (r: (Json, bool))
    ensures
        is_passthrough_record(r.0, probe),
        r.1 == passes_through(probe),
{
    let judged: Passthrough = judge_passthrough(&probe);
    let passed: bool = judged.passed();
    let streams: Option<Json> = match normalized_streams(&probe) {
        Ok(all) => {
            let shown: Json = summaries_json(&all);
            assert(summarize_all(
                all@,
                probe.list_field("streams"@)->0,
                media_places(probe.list_field("streams"@)->0),
            ));
            Some(shown)
        },
        Err(_) => None,
    };
    let mut f: Record = Record::new();
    f.add_flag("passed", passed);
    f.add_text(
        "videoCodec",
        if judged.video_hevc {
            "hevc"
        } else {
            "NOT_hevc"
        },
    );
    f.add_text(
        "audioCodec",
        if judged.audio_aac {
            "aac"
        } else {
            "NOT_aac"
        },
    );
    f.add_flag("mediaCheck", judged.media_error.is_none());
    f.add_text_or_null("mediaError", &judged.media_error);
    f.add_field("probe", probe);
    if !judged.video_hevc {
        f.add_text("error", "SRT output video codec is not HEVC — passthrough failed");
    }
    match streams {
        Some(shown) => (f.finish_with("streams", shown), passed),
        None => (f.finish(), passed),
    }
}

// ── What is read back ────────────────────────────────────────────────────────

/// What the record of a protocol says, but for its streams.
pub open spec fn protocol_cells(
    protocol: Protocol,
    trial: ProtocolTrial,
    snapshot: Json,
    probe: Json,
) -> Seq<(Seq<char>, Cell)> {
    Seq::empty().push(
        ("passed"@, Cell::Flag(true)),
    ).push(
        ("protocol"@, Cell::Text(protocol.named())),
    ).push(
        ("publishUrl"@, Cell::Text(trial.publish_url@)),
    ).push(
        ("readUrl"@, Cell::Text(trial.read_url@)),
    ).push(
        ("snapshot"@, cell_of(snapshot)),
    ).push(
        ("probe"@, cell_of(probe)),
    )
}

/// Whether a value is an object whose fields say this, and then shows summaries of streams.
pub open spec fn shows_streams(
    j: Json,
    cells: Seq<(Seq<char>, Cell)>,
    streams: Seq<StreamSummary>,
) -> bool {
    j matches Json::Object(f) && f@.len() > 0 && cells_of(f@.drop_last()) == cells
        && f@.last().0@ == "normalizedStreams"@ && shows_all(f@.last().1, streams)
}

/// The record of a protocol: what the server told, and what was read back from it.
pub fn protocol_record(
    protocol: Protocol,
    trial: &ProtocolTrial,
    snapshot: Json,
    probe: Json,
    streams: &Vec<StreamSummary>,
) -> (r: Json)
    ensures
        shows_streams(r, protocol_cells(protocol, *trial, snapshot, probe), streams@),
{
    let mut f: Record = Record::new();
    f.add_flag("passed", true);
    f.add_text("protocol", protocol.name());
    f.add_text("publishUrl", trial.publish_url.as_str());
    f.add_text("readUrl", trial.read_url.as_str());
    f.add_field("snapshot", snapshot);
    f.add_field("probe", probe);
    f.finish_with("normalizedStreams", summaries_json(streams))
}

/// What one part of the record of both protocols says, but for its streams.
pub open spec fn trial_cells(
    fixture: Seq<char>,
    trial: ProtocolTrial,
    snapshot: Json,
    probe: Json,
) -> Seq<(Seq<char>, Cell)> {
    Seq::empty().push(
        ("fixture"@, Cell::Text(fixture)),
    ).push(
        ("publishUrl"@, Cell::Text(trial.publish_url@)),
    ).push(
        ("readUrl"@, Cell::Text(trial.read_url@)),
    ).push(
        ("snapshot"@, cell_of(snapshot)),
    ).push(
        ("probe"@, cell_of(probe)),
    )
}

/// One part of the record of both protocols.
pub fn trial_record(
    fixture: &str,
    trial: &ProtocolTrial,
    snapshot: Json,
    probe: Json,
    streams: &Vec<StreamSummary>,
) -> (r: Json)
    ensures
        shows_streams(r, trial_cells(fixture@, *trial, snapshot, probe), streams@),
{
    let mut f: Record = Record::new();
    f.add_text("fixture", fixture);
    f.add_text("publishUrl", trial.publish_url.as_str());
    f.add_text("readUrl", trial.read_url.as_str());
    f.add_field("snapshot", snapshot);
    f.add_field("probe", probe);
    f.finish_with("normalizedStreams", summaries_json(streams))
}

/// The record of both protocols, from their parts.
pub fn correctness_record(rtmp: Json, srt: Json) -> (r: Json)
    ensures
        is_record(
            r,
            Seq::empty().push(("passed"@, Cell::Flag(true))).push(("rtmp"@, cell_of(rtmp))).push(
                ("srt"@, cell_of(srt)),
            ),
        ),
{
    let mut f: Record = Record::new();
    f.add_flag("passed", true);
    f.add_field("rtmp", rtmp);
    f.add_field("srt", srt);
    f.finish()
}

/// What the record of a smoke test of the interface says.
pub open spec fn smoke_cells(pipeline: Seq<char>, output: Seq<char>) -> Seq<(Seq<char>, Cell)> {
    Seq::empty().push(
        ("passed"@, Cell::Flag(true)),
    ).push(
        ("mode"@, Cell::Text("api-smoke"@)),
    ).push(
        ("pipelineId"@, Cell::Text(pipeline)),
    ).push(
        ("outputId"@, Cell::Text(output)),
    ).push(
        ("dbPersistence"@, Cell::Flag(true)),
    )
}

/// What is said of the log's history after a smoke test.
pub open spec fn smoke_history_cells(logs: nat) -> Seq<(Seq<char>, Cell)> {
    Seq::empty().push(("logsEndpointOk"@, Cell::Flag(true))).push(
        ("logCount"@, Cell::Whole(logs as int)),
    )
}

fn smoke_history(logs: usize) -> (r: Json)
    ensures
        is_record(r, smoke_history_cells(logs as nat)),
{
    let mut f: Record = Record::new();
    f.add_flag("logsEndpointOk", true);
    f.add_whole("logCount", logs as u64);
    f.finish()
}

/// The record of a smoke test of the interface, whose pipeline outlived the server.
pub fn api_smoke_record(pipeline: &str, output: &str, logs: usize) -> (r: Json)
    ensures
        is_record_with(
            r,
            smoke_cells(pipeline@, output@),
            "historyContract"@,
            smoke_history_cells(logs as nat),
        ),
{
    let mut f: Record = Record::new();
    f.add_flag("passed", true);
    f.add_text("mode", "api-smoke");
    f.add_text("pipelineId", pipeline);
    f.add_text("outputId", output);
    f.add_flag("dbPersistence", true);
    f.finish_with("historyContract", smoke_history(logs))
}

/// What the record of a publisher that was refused says.
pub open spec fn refused_publish_cells(label: Seq<char>) -> Seq<(Seq<char>, Cell)> {
    Seq::empty().push(
        ("passed"@, Cell::Flag(true)),
    ).push(
        ("label"@, Cell::Text(label)),
    )
}

/// The record of a publisher that was refused.
pub fn refused_publish_record(label: &str) -> (r: Json)
    ensures
        is_record(r, refused_publish_cells(label@)),
{
    let mut f: Record = Record::new();
    f.add_flag("passed", true);
    f.add_text("label", label);
    f.finish()
}

/// What the record of a reader that was refused says.
pub open spec fn refused_read_cells(label: Seq<char>, error: Seq<char>) -> Seq<(Seq<char>, Cell)> {
    Seq::empty().push(
        ("passed"@, Cell::Flag(true)),
    ).push(
        ("label"@, Cell::Text(label)),
    ).push(
        ("error"@, Cell::Text(error)),
    )
}

/// The record of a reader that was refused.
pub fn refused_read_record(label: &str, error: &str) -> (r: Json)
    ensures
        is_record(r, refused_read_cells(label@, error@)),
{
    let mut f: Record = Record::new();
    f.add_flag("passed", true);
    f.add_text("label", label);
    f.add_text("error", error);
    f.finish()
}

/// What the record of an upload says.
pub open spec fn upload_request_cells(
    path: Seq<char>,
    file: Seq<char>,
    content_type: Seq<char>,
    bytes: u64,
) -> Seq<(Seq<char>, Cell)> {
    Seq::empty().push(
        ("path"@, Cell::Text(path)),
    ).push(
        ("file"@, Cell::Text(file)),
    ).push(
        ("contentType"@, Cell::Text(content_type)),
    ).push(
        ("bytes"@, Cell::Whole(bytes as int)),
    )
}

/// The record of an upload.
pub fn upload_request_record(path: &str, file: &str, content_type: &str, bytes: u64) -> (r: Json)
    ensures
        is_record(r, upload_request_cells(path@, file@, content_type@, bytes)),
{
    let mut f: Record = Record::new();
    f.add_text("path", path);
    f.add_text("file", file);
    f.add_text("contentType", content_type);
    f.add_whole("bytes", bytes);
    f.finish()
}

// ── Ramps ────────────────────────────────────────────────────────────────────

/// What the record of a snapshot says.
pub open spec fn ramp_snapshot_cells(
    step: usize,
    label: Seq<char>,
    cpu: Seq<char>,
    rss_kb: u64,
    transcoders: u64,
    transcoder_kb: u64,
) -> Seq<(Seq<char>, Cell)> {
    Seq::empty().push(
        ("step"@, Cell::Whole(step as int)),
    ).push(
        ("label"@, Cell::Text(label)),
    ).push(
        ("cpuPct"@, Cell::Text(cpu)),
    ).push(
        ("rssKb"@, Cell::Whole(rss_kb as int)),
    ).push(
        ("ffmpegCount"@, Cell::Whole(transcoders as int)),
    ).push(
        ("ffmpegRssKb"@, Cell::Whole(transcoder_kb as int)),
    ).push(
        ("totalRssKb"@, Cell::Whole((rss_kb + transcoder_kb) as int)),
    )
}

/// The record of a snapshot.
pub fn ramp_snapshot_record(
    step: usize,
    label: &str,
    cpu: &str,
    rss_kb: u64,
    transcoders: u64,
    transcoder_kb: u64,
) -> (r: Json)
    requires
        rss_kb + transcoder_kb <= u64::MAX,
    ensures
        is_record(
            r,
            ramp_snapshot_cells(step, label@, cpu@, rss_kb, transcoders, transcoder_kb),
        ),
{
    let mut f: Record = Record::new();
    f.add_whole("step", step as u64);
    f.add_text("label", label);
    f.add_text("cpuPct", cpu);
    f.add_whole("rssKb", rss_kb);
    f.add_whole("ffmpegCount", transcoders);
    f.add_whole("ffmpegRssKb", transcoder_kb);
    f.add_whole("totalRssKb", rss_kb + transcoder_kb);
    f.finish()
}

/// What a ramp came to.
#[derive(Debug)]
pub struct RampOutcome {
    pub pipeline: String,
    pub outputs: usize,
    pub baseline: Json,
    pub gain_kb: u64,
    pub per_output_kb: u64,
    pub transcoders: u64,
    pub transcoder_kb: u64,
    /// What was found at the end of the first and of the last output.
    pub first: Option<String>,
    pub last: Option<String>,
}

/// What the record of a ramp, but for its spot checks, says.
pub open spec fn ramp_cells(config: RampConfig, o: RampOutcome) -> Seq<(Seq<char>, Cell)> {
    Seq::empty().push(
        ("config"@, Cell::Text(config.named())),
    ).push(
        ("pipelineId"@, Cell::Text(o.pipeline@)),
    ).push(
        ("outputs"@, Cell::Whole(o.outputs as int)),
    ).push(
        ("baseline"@, cell_of(o.baseline)),
    ).push(
        ("rssDeltaKb"@, Cell::Whole(o.gain_kb as int)),
    ).push(
        ("perOutputKb"@, Cell::Whole(o.per_output_kb as int)),
    ).push(
        ("ffmpegCount"@, Cell::Whole(o.transcoders as int)),
    ).push(
        ("ffmpegRssKb"@, Cell::Whole(o.transcoder_kb as int)),
    )
}

/// What is said of one spot check: what was expected, and what was got, if anything.
pub open spec fn spot_cells(expected: Seq<char>, got: Option<Seq<char>>) -> Seq<(Seq<char>, Cell)> {
    Seq::empty().push(("expected"@, Cell::Text(expected))).push(("got"@, text_cell(got)))
}

fn spot_record(expected: &str, got: &Option<String>) -> (r: Json)
    ensures
        is_record(r, spot_cells(expected@, text_option(*got))),
{
    let mut f: Record = Record::new();
    f.add_text("expected", expected);
    f.add_text_or_null("got", got);
    f.finish()
}

/// Whether a value is the record of a ramp: its spot checks, of the first and of the last output,
/// come last.
pub open spec fn is_ramp_record(j: Json, config: RampConfig, o: RampOutcome) -> bool {
    j matches Json::Object(f) && f@.len() > 0 && cells_of(f@.drop_last()) == ramp_cells(config, o)
        && f@.last().0@ == "spotChecks"@ && (f@.last().1 matches Json::Object(spots) && spots@.len()
        == 2 && spots@[0].0@ == "first"@ && is_record(
        spots@[0].1,
        spot_cells(config.expects(), text_option(o.first)),
    ) && spots@[1].0@ == "last"@ && is_record(
        spots@[1].1,
        spot_cells(config.expects(), text_option(o.last)),
    ))
}

/// The record of a ramp.
pub fn ramp_record(config: RampConfig, o: RampOutcome) -> (r: Json)
    ensures
        is_ramp_record(r, config, o),
{
    let mut spots: Vec<(String, Json)> = Vec::new();
    spots.push(("first".to_string(), spot_record(config.expected(), &o.first)));
    spots.push(("last".to_string(), spot_record(config.expected(), &o.last)));
    let mut f: Record = Record::new();
    f.add_text("config", config.name().as_str());
    f.add_text("pipelineId", o.pipeline.as_str());
    f.add_whole("outputs", o.outputs as u64);
    f.add_field("baseline", o.baseline);
    f.add_whole("rssDeltaKb", o.gain_kb);
    f.add_whole("perOutputKb", o.per_output_kb);
    f.add_whole("ffmpegCount", o.transcoders);
    f.add_whole("ffmpegRssKb", o.transcoder_kb);
    f.finish_with("spotChecks", Json::Object(spots))
}

/// What the list of files that ramps leave behind says.
pub open spec fn ramp_artifact_cells(paths: RunPaths) -> Seq<(Seq<char>, Cell)> {
    Seq::empty().push(
        ("scaleCsv"@, Cell::Text(paths.scale_log@)),
    ).push(
        ("summary"@, Cell::Text(paths.summary_log@)),
    ).push(
        ("restreamLog"@, Cell::Text(paths.restream_log@)),
    ).push(
        ("mediamtxLog"@, Cell::Text(paths.mediamtx_log@)),
    )
}

/// What the list of files that a mixed run leaves behind says.
pub open spec fn mixed_artifact_cells(paths: RunPaths) -> Seq<(Seq<char>, Cell)> {
    Seq::empty().push(
        ("scaleCsv"@, Cell::Text(paths.scale_log@)),
    ).push(
        ("rssSummary"@, Cell::Text(paths.rss_summary@)),
    ).push(
        ("summary"@, Cell::Text(paths.summary_log@)),
    ).push(
        ("restreamLog"@, Cell::Text(paths.restream_log@)),
    ).push(
        ("mediamtxLog"@, Cell::Text(paths.mediamtx_log@)),
    )
}

fn ramp_artifacts(paths: &RunPaths) -> (r: Json)
    ensures
        is_record(r, ramp_artifact_cells(*paths)),
{
    let mut f: Record = Record::new();
    f.add_text("scaleCsv", paths.scale_log.as_str());
    f.add_text("summary", paths.summary_log.as_str());
    f.add_text("restreamLog", paths.restream_log.as_str());
    f.add_text("mediamtxLog", paths.mediamtx_log.as_str());
    f.finish()
}

fn mixed_artifacts(paths: &RunPaths) -> (r: Json)
    ensures
        is_record(r, mixed_artifact_cells(*paths)),
{
    let mut f: Record = Record::new();
    f.add_text("scaleCsv", paths.scale_log.as_str());
    f.add_text("rssSummary", paths.rss_summary.as_str());
    f.add_text("summary", paths.summary_log.as_str());
    f.add_text("restreamLog", paths.restream_log.as_str());
    f.add_text("mediamtxLog", paths.mediamtx_log.as_str());
    f.finish()
}

/// What the record of a run of configurations says, but for its files.
pub open spec fn run_cells(mode: Seq<char>, configs: Json) -> Seq<(Seq<char>, Cell)> {
    Seq::empty().push(("passed"@, Cell::Flag(true))).push(("mode"@, Cell::Text(mode))).push(
        ("configs"@, cell_of(configs)),
    )
}

/// The record of the ramps.
pub fn ramp_family_record(configs: Vec<Json>, paths: &RunPaths) -> (r: Json)
    ensures
        is_record_with(
            r,
            run_cells("ramp-family"@, Json::List(configs)),
            "artifacts"@,
            ramp_artifact_cells(*paths),
        ),
{
    let mut f: Record = Record::new();
    f.add_flag("passed", true);
    f.add_text("mode", "ramp-family");
    f.add_field("configs", Json::List(configs));
    f.finish_with("artifacts", ramp_artifacts(paths))
}

// ── Mixed runs ───────────────────────────────────────────────────────────────

/// Whether a value is the record of a mixed run with one configuration.
pub open spec fn is_mixed_record(j: Json, mode: Seq<char>, config: Json, paths: RunPaths) -> bool {
    exists|configs: Json| #[trigger]
        is_record_with(j, run_cells(mode, configs), "artifacts"@, mixed_artifact_cells(paths))
            && configs.as_list() == Some(seq![config])
}

/// The record of a mixed run.
pub fn mixed_record(mode: &str, config: Json, paths: &RunPaths) -> (r: Json)
    ensures
        is_mixed_record(r, mode@, config, *paths),
{
    let mut all: Vec<Json> = Vec::new();
    all.push(config);
    assert(all@ =~= seq![config]);
    let configs: Json = Json::List(all);
    let ghost listed = configs;
    let mut f: Record = Record::new();
    f.add_flag("passed", true);
    f.add_text("mode", mode);
    f.add_field("configs", configs);
    let r: Json = f.finish_with("artifacts", mixed_artifacts(paths));
    assert(is_record_with(
        r,
        run_cells(mode@, listed),
        "artifacts"@,
        mixed_artifact_cells(*paths),
    ));
    r
}

/// How much a mixed run added.
#[derive(Debug, Clone, Copy, PartialEq, Eq, Structural)]
pub struct Load {
    pub gain_kb: u64,
    pub per_output_kb: u64,
    pub transcoders: u64,
    pub transcoder_kb: u64,
}

/// What the record of a configuration, whatever its audio, says.
pub open spec fn config_cells(cfg: Seq<char>, pipeline: Seq<char>, n: usize, load: Load) -> Seq<(Seq<char>, Cell)> {
    Seq::empty().push(
        ("config"@, Cell::Text(cfg)),
    ).push(
        ("pipelineId"@, Cell::Text(pipeline)),
    ).push(
        ("nPerGroup"@, Cell::Whole(n as int)),
    ).push(
        ("totalOutputs"@, Cell::Whole(n * 4)),
    ).push(
        ("rssDeltaKb"@, Cell::Whole(load.gain_kb as int)),
    ).push(
        ("perOutputKb"@, Cell::Whole(load.per_output_kb as int)),
    ).push(
        ("extFfmpegCount"@, Cell::Whole(load.transcoders as int)),
    ).push(
        ("extFfmpegRssKb"@, Cell::Whole(load.transcoder_kb as int)),
    )
}

/// What the record of a configuration says; one with many audio tracks says which of them go where.
pub open spec fn audio_cells(told: Seq<(Seq<char>, Cell)>, multi_audio: bool) -> Seq<
    (Seq<char>, Cell),
> {
    if multi_audio {
        told.push(("audioTracks"@, Cell::Whole(2))).push(
            ("rtmp720pEncoding"@, Cell::Text("720p+atrack:0"@)),
        ).push(("srt720pEncoding"@, Cell::Text("720p+atrack:0,1"@)))
    } else {
        told
    }
}

/// What probes of a run found: each a summary, and whether it passed.
#[derive(Debug)]
pub struct ProbesFound {
    pub sink: Option<(Json, bool)>,
    pub upload: Option<(Json, bool)>,
    pub bursts: Option<(Json, bool)>,
}

/// What is added of a probe that was made.
pub open spec fn with_probe(
    told: Seq<(Seq<char>, Cell)>,
    name: Seq<char>,
    flag: Seq<char>,
    found: Option<(Json, bool)>,
) -> Seq<(Seq<char>, Cell)> {
    match found {
        Some((summary, passed)) => told.push((name, cell_of(summary))).push(
            (flag, Cell::Flag(passed)),
        ),
        None => told,
    }
}

/// What the record of a configuration says with the probes that were made.
pub open spec fn found_cells(told: Seq<(Seq<char>, Cell)>, found: ProbesFound) -> Seq<
    (Seq<char>, Cell),
> {
    with_probe(
        with_probe(
            with_probe(told, "sinkProbe"@, "sinkProbePassed"@, found.sink),
            "hlsPutProbe"@,
            "hlsPutProbePassed"@,
            found.upload,
        ),
        "burstGraph"@,
        "burstGraphPassed"@,
        found.bursts,
    )
}

fn add_probe(f: &mut Record, name: &str, flag: &str, found: Option<(Json, bool)>)
    ensures
        final(f)@ == with_probe(old(f)@, name@, flag@, found),
{
    if let Some((summary, passed)) = found {
        f.add_field(name, summary);
        f.add_flag(flag, passed);
    }
}

/// The record of a configuration of a mixed run.
pub fn config_record(
    cfg: &str,
    pipeline: &str,
    n: usize,
    load: Load,
    multi_audio: bool,
    found: ProbesFound,
) -> (r: Json)
    requires
        n * 4 <= usize::MAX,
    ensures
        is_record(
            r,
            found_cells(audio_cells(config_cells(cfg@, pipeline@, n, load), multi_audio), found),
        ),
{
    let mut f: Record = Record::new();
    f.add_text("config", cfg);
    f.add_text("pipelineId", pipeline);
    f.add_whole("nPerGroup", n as u64);
    f.add_whole("totalOutputs", (n * 4) as u64);
    f.add_whole("rssDeltaKb", load.gain_kb);
    f.add_whole("perOutputKb", load.per_output_kb);
    f.add_whole("extFfmpegCount", load.transcoders);
    f.add_whole("extFfmpegRssKb", load.transcoder_kb);
    if multi_audio {
        f.add_whole("audioTracks", 2);
        f.add_text("rtmp720pEncoding", "720p+atrack:0");
        f.add_text("srt720pEncoding", "720p+atrack:0,1");
    }
    add_probe(&mut f, "sinkProbe", "sinkProbePassed", found.sink);
    add_probe(&mut f, "hlsPutProbe", "hlsPutProbePassed", found.upload);
    add_probe(&mut f, "burstGraph", "burstGraphPassed", found.bursts);
    f.finish()
}

/// How much memory grew; not at all where it shrank.
pub open spec fn grown(baseline_kb: u64, peak_kb: u64) -> int {
    if peak_kb >= baseline_kb {
        peak_kb - baseline_kb
    } else {
        0
    }
}

/// What the record of a run from a file says.
pub open spec fn file_run_cells(
    cfg: Seq<char>,
    outputs: usize,
    baseline_kb: u64,
    peak_kb: u64,
) -> Seq<(Seq<char>, Cell)> {
    Seq::empty().push(
        ("config"@, Cell::Text(cfg)),
    ).push(
        ("outputCount"@, Cell::Whole(outputs as int)),
    ).push(
        ("rssBaselineKb"@, Cell::Whole(baseline_kb as int)),
    ).push(
        ("rssPeakKb"@, Cell::Whole(peak_kb as int)),
    ).push(
        ("rssGrowthKb"@, Cell::Whole(grown(baseline_kb, peak_kb))),
    )
}

/// The record of a run from a file.
pub fn file_run_record(cfg: &str, outputs: usize, baseline_kb: u64, peak_kb: u64) -> (r: Json)
    ensures
        is_record(r, file_run_cells(cfg@, outputs, baseline_kb, peak_kb)),
{
    let growth: u64 = if peak_kb >= baseline_kb {
        peak_kb - baseline_kb
    } else {
        0
    };
    let mut f: Record = Record::new();
    f.add_text("config", cfg);
    f.add_whole("outputCount", outputs as u64);
    f.add_whole("rssBaselineKb", baseline_kb);
    f.add_whole("rssPeakKb", peak_kb);
    f.add_whole("rssGrowthKb", growth);
    f.finish()
}

// ── What is emitted during a mixed run ───────────────────────────────────────

/// What is said of launches of a transcoder that nobody asked for; with a message where there were
/// any.
pub open spec fn launch_cells(launches: usize, message: Option<Seq<char>>) -> Seq<(Seq<char>, Cell)> {
    let told = Seq::empty();
    match message {
        Some(m) => told.push(("message"@, Cell::Text(m))),
        None => told,
    }.push(("external_transcoder_launches"@, Cell::Whole(launches as int)))
}

/// The fields about launches of a transcoder that nobody asked for.
pub fn launch_fields(launches: usize, message: &Option<String>) -> (r: Vec<(String, Json)>)
    ensures
        cells_of(r@) == launch_cells(launches, text_option(*message)),
{
    let mut f: Record = Record::new();
    if let Some(m) = message {
        f.add_text("message", m.as_str());
    }
    f.add_whole("external_transcoder_launches", launches as u64);
    f.into_fields()
}

/// What a report of the load, whatever the audio, says.
pub open spec fn load_cells(load: Load) -> Seq<(Seq<char>, Cell)> {
    Seq::empty().push(
        ("rss_delta_kb"@, Cell::Whole(load.gain_kb as int)),
    ).push(
        ("per_output_kb"@, Cell::Whole(load.per_output_kb as int)),
    ).push(
        ("ext_ffmpeg_n"@, Cell::Whole(load.transcoders as int)),
    ).push(
        ("ext_ffmpeg_rss_kb"@, Cell::Whole(load.transcoder_kb as int)),
    )
}

/// The fields of a report of the load, with the number of audio tracks where that is of interest.
pub fn load_fields(load: Load, audio_tracks: Option<u64>) -> (r: Vec<(String, Json)>)
    ensures
        cells_of(r@) == match audio_tracks {
            Some(n) => load_cells(load).push(("audio_tracks"@, Cell::Whole(n as int))),
            None => load_cells(load),
        },
{
    let mut f: Record = Record::new();
    f.add_whole("rss_delta_kb", load.gain_kb);
    f.add_whole("per_output_kb", load.per_output_kb);
    f.add_whole("ext_ffmpeg_n", load.transcoders);
    f.add_whole("ext_ffmpeg_rss_kb", load.transcoder_kb);
    if let Some(n) = audio_tracks {
        f.add_whole("audio_tracks", n);
    }
    f.into_fields()
}

/// What a look at a ring says.
pub open spec fn ring_cells(ring: RingReading, depth: Seq<char>) -> Seq<(Seq<char>, Cell)> {
    Seq::empty().push(
        ("ringCapacity"@, Cell::Whole(ring.capacity as int)),
    ).push(
        ("bufferDepthSecs"@, Cell::Number(depth)),
    ).push(
        ("ringResized"@, Cell::Flag(is_resized(ring))),
    ).push(
        ("adequate"@, Cell::Flag(is_adequate(ring))),
    ).push(
        ("overflows"@, Cell::Whole(ring.overflows as int)),
    )
}

/// The fields of a look at a ring.
pub fn ring_fields(ring: &RingReading, depth: &str) -> (r: Vec<(String, Json)>)
    ensures
        cells_of(r@) == ring_cells(*ring, depth@),
{
    let mut f: Record = Record::new();
    f.add_whole("ringCapacity", ring.capacity);
    f.add_number("bufferDepthSecs", depth);
    f.add_flag("ringResized", ring_resized(ring));
    f.add_flag("adequate", ring_adequate(ring));
    f.add_whole("overflows", ring.overflows);
    f.into_fields()
}

/// What is said of stages that outputs share: how many there are and may be; with a message and
/// the graph where they are not shared.
pub open spec fn sharing_cells(
    stages: usize,
    transcoders: u64,
    failure: Option<(Seq<char>, Json)>,
) -> Seq<(Seq<char>, Cell)> {
    let counted = |told: Seq<(Seq<char>, Cell)>|
        told.push(("tc_stages"@, Cell::Whole(stages as int))).push(
            ("bound"@, Cell::Whole(transcoders + 1)),
        );
    match failure {
        Some((message, graph)) => counted(
            Seq::empty().push(("message"@, Cell::Text(message))),
        ).push(("graph"@, cell_of(graph))),
        None => counted(Seq::empty()),
    }
}

/// The fields about stages that outputs share.
pub fn sharing_fields(stages: usize, transcoders: u64, failure: Option<(String, Json)>) -> (r: Vec<
    (String, Json),
>)
    requires
        transcoders < u64::MAX,
    ensures
        cells_of(r@) == sharing_cells(
            stages,
            transcoders,
            match failure {
                Some((message, graph)) => Some((message@, graph)),
                None => None,
            },
        ),
{
    let mut f: Record = Record::new();
    match failure {
        Some((message, graph)) => {
            f.add_text("message", message.as_str());
            f.add_whole("tc_stages", stages as u64);
            f.add_whole("bound", transcoders + 1);
            f.add_field("graph", graph);
        },
        None => {
            f.add_whole("tc_stages", stages as u64);
            f.add_whole("bound", transcoders + 1);
        },
    }
    f.into_fields()
}

/// What a stream that is as expected says.
pub open spec fn stream_cells(
    label: Seq<char>,
    expected: Seq<char>,
    got: Seq<char>,
    url: Seq<char>,
) -> Seq<(Seq<char>, Cell)> {
    Seq::empty().push(
        ("label"@, Cell::Text(label)),
    ).push(
        ("expected"@, Cell::Text(expected)),
    ).push(
        ("got"@, Cell::Text(got)),
    ).push(
        ("url"@, Cell::Text(url)),
    )
}

/// The fields of a stream that is as expected.
pub fn stream_fields(label: &str, expected: &str, got: &str, url: &str) -> (r: Vec<(String, Json)>)
    ensures
        cells_of(r@) == stream_cells(label@, expected@, got@, url@),
{
    let mut f: Record = Record::new();
    f.add_text("label", label);
    f.add_text("expected", expected);
    f.add_text("got", got);
    f.add_text("url", url);
    f.into_fields()
}

/// A text, empty where there is none.
pub open spec fn or_nothing(text: Option<Seq<char>>) -> Seq<char> {
    match text {
        Some(t) => t,
        None => Seq::empty(),
    }
}

fn text_of_option(text: &Option<String>) -> (r: &str)
    ensures
        r@ == or_nothing(text_option(*text)),
{
    proof {
        reveal_strlit("");
        assert(""@ =~= Seq::<char>::empty());
    }
    match text {
        Some(t) => t.as_str(),
        None => "",
    }
}

/// What a stream that never was as expected says.
pub open spec fn lost_stream_cells(
    message: Seq<char>,
    label: Seq<char>,
    expected: Seq<char>,
    url: Seq<char>,
    watch: StreamWatch,
) -> Seq<(Seq<char>, Cell)> {
    Seq::empty().push(
        ("message"@, Cell::Text(message)),
    ).push(
        ("label"@, Cell::Text(label)),
    ).push(
        ("expected"@, Cell::Text(expected)),
    ).push(
        ("got"@, Cell::Text(or_nothing(text_option(watch.last_observed)))),
    ).push(
        ("url"@, Cell::Text(url)),
    ).push(
        ("ffprobe_stderr"@, Cell::Text(or_nothing(text_option(watch.last_error)))),
    )
}

/// The fields of a stream that never was as expected.
pub fn lost_stream_fields(
    message: &str,
    label: &str,
    expected: &str,
    url: &str,
    watch: &StreamWatch,
) -> (r: Vec<(String, Json)>)
    ensures
        cells_of(r@) == lost_stream_cells(message@, label@, expected@, url@, *watch),
{
    let mut f: Record = Record::new();
    f.add_text("message", message);
    f.add_text("label", label);
    f.add_text("expected", expected);
    f.add_text("got", text_of_option(&watch.last_observed));
    f.add_text("url", url);
    f.add_text("ffprobe_stderr", text_of_option(&watch.last_error));
    f.into_fields()
}

/// What a stream whose picture and audio are as expected says.
pub open spec fn audio_route_cells(
    label: Seq<char>,
    expected: Seq<char>,
    tracks: usize,
    url: Seq<char>,
) -> Seq<(Seq<char>, Cell)> {
    Seq::empty().push(
        ("label"@, Cell::Text(label)),
    ).push(
        ("expected"@, Cell::Text(expected)),
    ).push(
        ("got"@, Cell::Text(expected)),
    ).push(
        ("expected_audio_tracks"@, Cell::Whole(tracks as int)),
    ).push(
        ("audio_tracks"@, Cell::Whole(tracks as int)),
    ).push(
        ("url"@, Cell::Text(url)),
    )
}

/// The fields of a stream whose picture and audio are as expected.
pub fn audio_route_fields(label: &str, expected: &str, tracks: usize, url: &str) -> (r: Vec<(String, Json)>)
    ensures
        cells_of(r@) == audio_route_cells(label@, expected@, tracks, url@),
{
    let mut f: Record = Record::new();
    f.add_text("label", label);
    f.add_text("expected", expected);
    f.add_text("got", expected);
    f.add_whole("expected_audio_tracks", tracks as u64);
    f.add_whole("audio_tracks", tracks as u64);
    f.add_text("url", url);
    f.into_fields()
}

/// The number of audio tracks that was seen last.
pub open spec fn tracks_seen(watch: AudioWatch) -> Option<u64> {
    match watch.last_audio_tracks {
        Some(n) => Some(n as u64),
        None => None,
    }
}

/// What a stream whose picture and audio never were as expected says.
pub open spec fn lost_audio_cells(
    message: Seq<char>,
    label: Seq<char>,
    expected: Seq<char>,
    tracks: usize,
    url: Seq<char>,
    watch: AudioWatch,
) -> Seq<(Seq<char>, Cell)> {
    Seq::empty().push(
        ("message"@, Cell::Text(message)),
    ).push(
        ("label"@, Cell::Text(label)),
    ).push(
        ("expected"@, Cell::Text(expected)),
    ).push(
        ("got"@, Cell::Text(watch.last_dimensions@)),
    ).push(
        ("expected_audio_tracks"@, Cell::Whole(tracks as int)),
    ).push(
        ("audio_tracks"@, whole_cell(tracks_seen(watch))),
    ).push(
        ("url"@, Cell::Text(url)),
    ).push(
        ("ffprobe_stderr"@, Cell::Text(watch.last_error@)),
    )
}

/// The fields of a stream whose picture and audio never were as expected.
pub fn lost_audio_fields(
    message: &str,
    label: &str,
    expected: &str,
    tracks: usize,
    url: &str,
    watch: &AudioWatch,
) -> (r: Vec<(String, Json)>)
    ensures
        cells_of(r@) == lost_audio_cells(message@, label@, expected@, tracks, url@, *watch),
{
    let seen: Option<u64> = match watch.last_audio_tracks {
        Some(n) => Some(n as u64),
        None => None,
    };
    let mut f: Record = Record::new();
    f.add_text("message", message);
    f.add_text("label", label);
    f.add_text("expected", expected);
    f.add_text("got", watch.last_dimensions.as_str());
    f.add_whole("expected_audio_tracks", tracks as u64);
    f.add_whole_or_null("audio_tracks", seen);
    f.add_text("url", url);
    f.add_text("ffprobe_stderr", watch.last_error.as_str());
    f.into_fields()
}

/// What the record of a probe of uploads says.
pub open spec fn upload_probe_cells(
    playlist_ok: bool,
    types_ok: bool,
    segment_ok: bool,
    found: bool,
    status: Option<Json>,
) -> Seq<(Seq<char>, Cell)> {
    Seq::empty().push(
        ("playlistValid"@, Cell::Flag(playlist_ok)),
    ).push(
        ("contentTypesCorrect"@, Cell::Flag(types_ok)),
    ).push(
        ("segmentDecodable"@, Cell::Flag(segment_ok)),
    ).push(
        ("artifactsFound"@, Cell::Flag(found)),
    ).push(
        ("outputStatus"@, value_cell(status)),
    )
}

/// The record of a probe of uploads.
pub fn upload_probe_record(
    playlist_ok: bool,
    types_ok: bool,
    segment_ok: bool,
    found: bool,
    status: Option<Json>,
) -> (r: Json)
    ensures
        is_record(r, upload_probe_cells(playlist_ok, types_ok, segment_ok, found, status)),
{
    let mut f: Record = Record::new();
    f.add_flag("playlistValid", playlist_ok);
    f.add_flag("contentTypesCorrect", types_ok);
    f.add_flag("segmentDecodable", segment_ok);
    f.add_flag("artifactsFound", found);
    f.add_field_or_null("outputStatus", status);
    f.finish()
}

/// What the record of readers that read in bursts says.
pub open spec fn burst_cells(report: BurstReport) -> Seq<(Seq<char>, Cell)> {
    Seq::empty().push(
        ("readerCount"@, Cell::Whole(report.readers as int)),
    ).push(
        ("burstOk"@, Cell::Whole(report.bursting as int)),
    )
}

/// The record of readers that read in bursts.
pub fn burst_record(report: BurstReport) -> (r: Json)
    ensures
        is_record(r, burst_cells(report)),
{
    let mut f: Record = Record::new();
    f.add_whole("readerCount", report.readers);
    f.add_whole("burstOk", report.bursting);
    f.finish()
}

/// What is said where the outputs of a run stopped: how many did, or what went wrong and how many
/// should have.
pub open spec fn lifecycle_cells(outputs: usize, error: Option<Seq<char>>) -> Seq<(Seq<char>, Cell)> {
    match error {
        Some(e) => Seq::empty().push(("message"@, Cell::Text(e))).push(
            ("stopped"@, Cell::Flag(false)),
        ).push(("requested"@, Cell::Whole(outputs as int))),
        None => Seq::empty().push(("stopped"@, Cell::Whole(outputs as int))),
    }
}

/// The fields about outputs that were stopped.
pub fn lifecycle_fields(outputs: usize, error: &Option<String>) -> (r: Vec<(String, Json)>)
    ensures
        cells_of(r@) == lifecycle_cells(outputs, text_option(*error)),
{
    let mut f: Record = Record::new();
    match error {
        Some(e) => {
            f.add_text("message", e.as_str());
            f.add_flag("stopped", false);
            f.add_whole("requested", outputs as u64);
        },
        None => {
            f.add_whole("stopped", outputs as u64);
        },
    }
    f.into_fields()
}

// ── A preflight ──────────────────────────────────────────────────────────────

/// The word for a check that passed or did not.
pub open spec fn passed_as(passed: bool) -> Seq<char> {
    if passed {
        "ok"@
    } else {
        "fail"@
    }
}

fn passed_text(passed: bool) -> (r: &'static str)
    ensures
        r@ == passed_as(passed),
{
    if passed {
        "ok"
    } else {
        "fail"
    }
}

/// What is said of the server's program; a hint where it cannot be run.
pub open spec fn binary_cells(ok: bool, path: Seq<char>) -> Seq<(Seq<char>, Cell)> {
    let told = Seq::empty().push(("check"@, Cell::Text("binary"@))).push(
        ("path"@, Cell::Text(path)),
    ).push(("status"@, Cell::Text(passed_as(ok))));
    if ok {
        told
    } else {
        told.push(
            (
                "hint"@,
                Cell::Text(
                    "build restream in target/debug or target/release, or set RESTREAM_BIN"@,
                ),
            ),
        )
    }
}

/// What is said of the tools that are missing.
pub open spec fn tool_cells(missing: Seq<Seq<char>>) -> Seq<(Seq<char>, Cell)> {
    Seq::empty().push(("check"@, Cell::Text("deps"@))).push(("missing"@, Cell::Texts(missing))).push(
        ("status"@, Cell::Text(passed_as(missing.len() == 0))),
    )
}

/// What is said of the disk: how much is free and has to be; a hint where that is too little or not
/// known.
pub open spec fn disk_cells(free_mb: Option<u64>, min_free_mb: u64) -> Seq<(Seq<char>, Cell)> {
    let named = Seq::empty().push(("check"@, Cell::Text("artifact-disk"@)));
    match free_mb {
        Some(free) => {
            let told = named.push(("freeMb"@, Cell::Whole(free as int))).push(
                ("minFreeMb"@, Cell::Whole(min_free_mb as int)),
            ).push(("status"@, Cell::Text(passed_as(free >= min_free_mb))));
            if free >= min_free_mb {
                told
            } else {
                told.push(
                    (
                        "hint"@,
                        Cell::Text("prune test/artifacts or lower RESTREAM_ARTIFACT_MIN_FREE_MB"@),
                    ),
                )
            }
        },
        None => named.push(("status"@, Cell::Text("skip"@))).push(
            ("hint"@, Cell::Text("could not stat artifact directory"@)),
        ),
    }
}

/// What is said of the profiles of the programs; a hint where they are not fit to measure with.
pub open spec fn profile_cells(ok: bool, harness: Seq<char>, restream: Seq<char>) -> Seq<
    (Seq<char>, Cell),
> {
    let told = Seq::empty().push(("check"@, Cell::Text("profile"@))).push(
        ("harness"@, Cell::Text(harness)),
    ).push(("restream"@, Cell::Text(restream))).push(("required"@, Cell::Text("bench"@))).push(
        ("status"@, Cell::Text(passed_as(ok))),
    );
    if ok {
        told
    } else {
        told.push(
            (
                "hint"@,
                Cell::Text(
                    "measurement modes require bench-profile binaries; run `scripts/build-bench-harness.sh` and use `target/bench/test_harness`"@,
                ),
            ),
        )
    }
}

fn binary_record(ok: bool, path: &str) -> (r: Json)
    ensures
        is_record(r, binary_cells(ok, path@)),
{
    let mut f: Record = Record::new();
    f.add_text("check", "binary");
    f.add_text("path", path);
    f.add_text("status", passed_text(ok));
    if !ok {
        f.add_text("hint", "build restream in target/debug or target/release, or set RESTREAM_BIN");
    }
    f.finish()
}

fn tool_record(missing: &Vec<String>) -> (r: Json)
    ensures
        is_record(r, tool_cells(texts(missing@))),
{
    let mut f: Record = Record::new();
    f.add_text("check", "deps");
    f.add_texts("missing", missing);
    f.add_text("status", passed_text(missing.len() == 0));
    f.finish()
}

fn disk_record(free_mb: Option<u64>, min_free_mb: u64) -> (r: Json)
    ensures
        is_record(r, disk_cells(free_mb, min_free_mb)),
{
    let mut f: Record = Record::new();
    f.add_text("check", "artifact-disk");
    match free_mb {
        Some(free) => {
            f.add_whole("freeMb", free);
            f.add_whole("minFreeMb", min_free_mb);
            f.add_text("status", passed_text(free >= min_free_mb));
            if free < min_free_mb {
                f.add_text(
                    "hint",
                    "prune test/artifacts or lower RESTREAM_ARTIFACT_MIN_FREE_MB",
                );
            }
        },
        None => {
            f.add_text("status", "skip");
            f.add_text("hint", "could not stat artifact directory");
        },
    }
    f.finish()
}

fn profile_record(ok: bool, harness: &str, restream: &str) -> (r: Json)
    ensures
        is_record(r, profile_cells(ok, harness@, restream@)),
{
    let mut f: Record = Record::new();
    f.add_text("check", "profile");
    f.add_text("harness", harness);
    f.add_text("restream", restream);
    f.add_text("required", "bench");
    f.add_text("status", passed_text(ok));
    if !ok {
        f.add_text(
            "hint",
            "measurement modes require bench-profile binaries; run `scripts/build-bench-harness.sh` and use `target/bench/test_harness`",
        );
    }
    f.finish()
}

/// Whether a value is the record of a preflight: its four checks, and whether they let a suite run.
pub open spec fn is_preflight_record(
    j: Json,
    found: PreflightFindings,
    harness: Seq<char>,
    restream: Seq<char>,
) -> bool {
    j matches Json::Object(f) && f@.len() == 2 && f@[0].0@ == "checks"@ && (
    f@[0].1 matches Json::List(checks) && checks@.len() == 4 && is_record(
        checks@[0],
        binary_cells(found.binary_ok, restream),
    ) && is_record(checks@[1], tool_cells(texts(found.missing_tools@))) && is_record(
        checks@[2],
        disk_cells(found.free_mb, found.min_free_mb),
    ) && is_record(
        checks@[3],
        profile_cells(found.harness_is_bench && found.restream_is_bench, harness, restream),
    )) && f@[1].0@ == "status"@ && f@[1].1.as_text() == Some(passed_as(found.lets_run()))
}

/// The record of a preflight.
pub fn preflight_record(found: &PreflightFindings, harness: &str, restream: &str) -> (r: Json)
    ensures
        is_preflight_record(r, *found, harness@, restream@),
{
    let mut checks: Vec<Json> = Vec::new();
    checks.push(binary_record(found.binary_ok, restream));
    checks.push(tool_record(&found.missing_tools));
    checks.push(disk_record(found.free_mb, found.min_free_mb));
    checks.push(
        profile_record(found.harness_is_bench && found.restream_is_bench, harness, restream),
    );
    let passed: bool = preflight_passes(found);
    let mut f: Vec<(String, Json)> = Vec::new();
    f.push(("checks".to_string(), Json::List(checks)));
    f.push(("status".to_string(), Json::Text(passed_text(passed).to_string())));
    Json::Object(f)
}

// ── Laws ─────────────────────────────────────────────────────────────────────

/// B-frames are told to have come through where nothing is wrong with them, and only there.
pub proof fn bframes_pass_without_an_error(
    packets: usize,
    bframes: usize,
    probe_monotone: bool,
    m: GeneralizedSinkMetrics,
)
    ensures
        ({
            let cells = bframe_cells(packets, bframes, probe_monotone, m);
            let fine = packets >= 30 && bframes > 0 && probe_monotone && video_in_order(m.packets@);
            &&& cells[0] == ("passed"@, Cell::Flag(fine))
            &&& cells.len() == (if fine {
                6int
            } else {
                7int
            })
        }),
{
}

/// A preflight that passed found nothing that it gives a hint about, but for a disk that it could
/// not look at.
pub proof fn passed_preflight_gives_no_hint(found: PreflightFindings, path: Seq<char>)
    ensures
        found.lets_run() ==> binary_cells(found.binary_ok, path).len() == 3 && profile_cells(
            found.harness_is_bench && found.restream_is_bench,
            path,
            path,
        ).len() == 5 && (found.free_mb matches Some(free) ==> disk_cells(
            found.free_mb,
            found.min_free_mb,
        ).len() == 4),
{
}

/// What goes out is right exactly when the sink received thirty frames with audio and in order, the
/// stream came back in over SRT, and the recording was judged right; each part tells its own verdict.
pub proof fn egress_is_right_in_all_three_ways(
    j: Json,
    m: GeneralizedSinkMetrics,
    pipeline: Seq<char>,
    takes_in: bool,
    judged: Result<usize, String>,
    file: Seq<char>,
)
    requires
        is_egress_record(j, m, pipeline, takes_in, judged, file),
    ensures
        j is Object && j->Object_0@[3].0@ == "passed"@,
        j->Object_0@[3].1 == Json::Bool(true) <==> m.video_count >= 30 && m.audio_count >= 1
            && video_in_order(m.packets@) && takes_in && judged is Ok,
        delivery_cells(m, 30)[0] == (
            "passed"@,
            Cell::Flag(m.video_count >= 30 && m.audio_count >= 1 && video_in_order(m.packets@)),
        ),
        srt_egress_cells(pipeline, takes_in)[0] == ("passed"@, Cell::Flag(takes_in)),
        recording_cells(judged, file)[0] == ("passed"@, Cell::Flag(judged is Ok)),
        judged is Ok ==> recording_cells(judged, file)[2] == (
            "streamCount"@,
            Cell::Whole(judged->Ok_0 as int),
        ),
        judged is Err ==> recording_cells(judged, file)[1] == (
            "error"@,
            Cell::Text(judged->Err_0@),
        ),
{
}

/// A stream passes through exactly when it is one video with audio, and still H.265 and AAC.
pub proof fn passthrough_keeps_codecs_and_media(probe: Json, streams: Seq<Json>)
    requires
        probe.list_field("streams"@) == Some(streams),
    ensures
        passes_through(probe) <==> crate::harness::probe::media_only(streams) && (codec_in(
            probe,
            "video"@,
        ) == Some("hevc"@) || codec_in(probe, "video"@) == Some("h265"@)) && codec_in(
            probe,
            "audio"@,
        ) == Some("aac"@),
        passthrough_cells(probe)[0] == ("passed"@, Cell::Flag(passes_through(probe))),
        passthrough_cells(probe)[1] == (
            "videoCodec"@,
            Cell::Text(
                if codec_in(probe, "video"@) == Some("hevc"@) || codec_in(probe, "video"@) == Some(
                    "h265"@,
                ) {
                    "hevc"@
                } else {
                    "NOT_hevc"@
                },
            ),
        ),
{
}

/// A transcode is told as passed exactly when it is right.
pub proof fn transcodes_are_told_as_they_are(m: GeneralizedSinkMetrics)
    ensures
        transcode_cells(m)[0] == ("passed"@, Cell::Flag(crate::harness::sink::transcode_right(m))),
        transcode_cells(m)[2] == ("videoCount"@, Cell::Whole(m.video_count as int)),
        transcode_cells(m)[3] == ("audioCount"@, Cell::Whole(m.audio_count as int)),
{
}

/// What a run grew by is its peak above its start, and nothing where it shrank.
pub proof fn growth_is_above_the_start(baseline_kb: u64, peak_kb: u64)
    ensures
        baseline_kb <= peak_kb ==> baseline_kb + grown(baseline_kb, peak_kb) == peak_kb,
        peak_kb < baseline_kb ==> grown(baseline_kb, peak_kb) == 0,
{
}

/// A machine is told as ready exactly when each of its checks is: its program, its tools, its disk,
/// and its profile.
pub proof fn preflights_are_told_check_by_check(
    ok: bool,
    path: Seq<char>,
    missing: Seq<Seq<char>>,
    free: u64,
    min_free: u64,
    harness: Seq<char>,
)
    ensures
        passed_as(true) == "ok"@ && passed_as(false) == "fail"@,
        binary_cells(ok, path)[2] == ("status"@, Cell::Text(passed_as(ok))) && binary_cells(
            ok,
            path,
        ).len() == (if ok {
            3int
        } else {
            4
        }),
        tool_cells(missing)[2] == ("status"@, Cell::Text(passed_as(missing.len() == 0))),
        disk_cells(Some(free), min_free)[3] == ("status"@, Cell::Text(passed_as(free >= min_free))),
        disk_cells(None, min_free)[1] == ("status"@, Cell::Text("skip"@)),
        profile_cells(ok, harness, path)[4] == ("status"@, Cell::Text(passed_as(ok))),
{
}

} // verus!
