//! What the correctness scenarios come to.

use vstd::prelude::*;
use vstd::string::*;

use crate::harness::probe::{
    assert_media_only, assert_snapshot_matches_probe, count_type, first_of_its_type, is_type,
    match_is_with_the_streams, media_complaint, media_only, media_places, mismatch, mismatch_said,
    normalized_streams, other_types, places_are_those_of_the_type, places_of_type, summarize_all,
    type_count, StreamSummary,
};
use crate::harness::ramp::Protocol;
use crate::harness::sink::{video_in_order, GeneralizedSinkMetrics};
use crate::harness::status::inner;
use crate::harness::urls::{
    rtmp_address, rtmp_url, srt_address, srt_live_address, srt_read_url, srt_url,
};
use crate::harness::waits::{flag_text, flag_word, health_knows, lists_id, lists_pipeline, text_or};
use crate::json::{equal_json, pointee, Json};
use crate::text::{quoted_list, same_text, text_option};

verus! {

// ── One protocol ─────────────────────────────────────────────────────────────

/// How a protocol is tried: a stream is published, and read back.
#[derive(Debug, Clone)]
pub struct ProtocolTrial {
    pub stream_key: String,
    pub publish_url: String,
    pub read_url: String,
    pub format: &'static str,
    /// All streams of the fixture, or the video and the first audio.
    pub all_streams: bool,
}

/// How a protocol is tried.
pub fn protocol_trial(protocol: Protocol, rtmp_port: u16, srt_port: u16) -> (r: ProtocolTrial)
    ensures
        r.stream_key@ == "e2e-"@ + protocol.named(),
        match protocol {
            Protocol::Rtmp => {
                &&& r.publish_url@ == rtmp_address(rtmp_port, r.stream_key@)
                &&& r.read_url@ == r.publish_url@
                &&& r.format@ == "flv"@
                &&& !r.all_streams
            },
            Protocol::Srt => {
                &&& r.publish_url@ == srt_address(srt_port, r.stream_key@)
                &&& r.read_url@ == srt_live_address(srt_port, r.stream_key@)
                &&& r.format@ == "mpegts"@
                &&& r.all_streams
            },
        },
{
    let stream_key: String = "e2e-".to_string().concat(protocol.name());
    match protocol {
        Protocol::Rtmp => {
            let publish_url: String = rtmp_url(rtmp_port, stream_key.as_str());
            let read_url: String = rtmp_url(rtmp_port, stream_key.as_str());
            ProtocolTrial { stream_key, publish_url, read_url, format: "flv", all_streams: false }
        },
        Protocol::Srt => {
            let publish_url: String = srt_url(srt_port, stream_key.as_str());
            let read_url: String = srt_read_url(srt_port, stream_key.as_str(), &None);
            ProtocolTrial { stream_key, publish_url, read_url, format: "mpegts", all_streams: true }
        },
    }
}

/// Whether these are the media of the streams, and the server tells the same of them.
pub open spec fn told_alike(snapshot: Json, streams: Seq<Json>, s: Seq<StreamSummary>) -> bool {
    summarize_all(s, streams, media_places(streams)) && mismatch(snapshot, s) is None
}

/// Judges what was read of a stream: it is one video with audio, and the server tells the same of
/// it. Where it is, its media are given.
pub fn judge_read(snapshot: &Json, probe: &Json, read_label: &str, label: &str) -> (r: Result<
    Vec<StreamSummary>,
    String,
>)
    ensures
        match probe.list_field("streams"@) {
            None => r is Err && r->Err_0@ == read_label@ + ": ffprobe output has no streams"@,
            Some(streams) => match r {
                Ok(s) => media_only(streams) && told_alike(*snapshot, streams, s@),
                Err(message) => if media_only(streams) {
                    exists|s: Seq<StreamSummary>|
                        #[trigger] summarize_all(s, streams, media_places(streams)) && (mismatch(
                            *snapshot,
                            s,
                        ) matches Some(why) && mismatch_said(
                            why,
                            *snapshot,
                            s,
                            label@,
                            message@,
                        ))
                } else {
                    message@ == media_complaint(
                        read_label@,
                        streams,
                        quoted_list(other_types(streams)),
                    )
                },
            },
        },
{
    match assert_media_only(probe, read_label) {
        Err(message) => Err(message),
        Ok(_) => match normalized_streams(probe) {
            Err(message) => Err(message),
            Ok(media) => {
                match assert_snapshot_matches_probe(snapshot, &media, label) {
                    Err(message) => {
                        assert(mismatch(*snapshot, media@) is Some);
                        Err(message)
                    },
                    Ok(_) => Ok(media),
                }
            },
        },
    }
}

// ── Outputs ──────────────────────────────────────────────────────────────────

/// Whether a sink received enough video, some audio, and times that run forward.
pub fn sink_received(m: &GeneralizedSinkMetrics, min_video: u64) -> (r: bool)
    ensures
        r == (m.video_count >= min_video && m.audio_count > 0 && video_in_order(m.packets@)),
{
    m.video_count >= min_video && m.audio_count > 0 && m.dts_monotone()
}

/// The first stream of a type.
pub open spec fn first_of_type(streams: Seq<Json>, kind: Seq<char>) -> Option<Json>
    decreases streams.len(),
{
    if streams.len() == 0 {
        None
    } else if streams[0].has_text("codec_type"@, kind) {
        Some(streams[0])
    } else {
        first_of_type(streams.skip(1), kind)
    }
}

fn find_type<'a>(streams: &'a Vec<Json>, kind: &str) -> (r: Option<&'a Json>)
    ensures
        pointee(r) == first_of_type(streams@, kind@),
{
    let mut i: usize = 0;
    assert(streams@.skip(0) =~= streams@);
    while i < streams.len()
        invariant
            i <= streams@.len(),
            first_of_type(streams@, kind@) == first_of_type(streams@.skip(i as int), kind@),
        decreases streams@.len() - i,
    {
        assert(streams@.skip(i as int)[0] == streams@[i as int]);
        assert(streams@.skip(i as int).skip(1) =~= streams@.skip(i + 1));
        if streams[i].text_is("codec_type", kind) {
            return Some(&streams[i]);
        }
        i += 1;
    }
    None
}

/// The codec of the first stream of a type in a probe.
pub open spec fn codec_in(probe: Json, kind: Seq<char>) -> Option<Seq<char>> {
    match probe.list_field("streams"@) {
        Some(streams) => match first_of_type(streams, kind) {
            Some(stream) => stream.text_field("codec_name"@),
            None => None,
        },
        None => None,
    }
}

fn codec_is(probe: &Json, kind: &str, codec: &str) -> (r: bool)
    ensures
        r == (codec_in(*probe, kind@) == Some(codec@)),
{
    match probe.get_list("streams") {
        Some(streams) => match find_type(streams, kind) {
            Some(stream) => match stream.get_text("codec_name") {
                Some(name) => same_text(name, codec),
                None => false,
            },
            None => false,
        },
        None => false,
    }
}

/// Whether the video of a probe is H.265, under either of its names.
pub fn video_is_hevc(probe: &Json) -> (r: bool)
    ensures
        r == (codec_in(*probe, "video"@) == Some("hevc"@) || codec_in(*probe, "video"@) == Some(
            "h265"@,
        )),
{
    codec_is(probe, "video", "hevc") || codec_is(probe, "video", "h265")
}

/// Whether the audio of a probe is AAC.
pub fn audio_is_aac(probe: &Json) -> (r: bool)
    ensures
        r == (codec_in(*probe, "audio"@) == Some("aac"@)),
{
    codec_is(probe, "audio", "aac")
}

/// What is wrong with the media of a probe; nothing where they are one video, at least one audio,
/// and nothing else.
pub open spec fn media_fault(probe: Json, label: Seq<char>) -> Option<Seq<char>> {
    match probe.list_field("streams"@) {
        None => Some(label + ": ffprobe output has no streams"@),
        Some(streams) => if media_only(streams) {
            None
        } else {
            Some(media_complaint(label, streams, quoted_list(other_types(streams))))
        },
    }
}

/// What a look at a stream that should have come through unchanged told.
#[derive(Debug, Clone)]
pub struct Passthrough {
    pub media_error: Option<String>,
    pub video_hevc: bool,
    pub audio_aac: bool,
}

impl Passthrough {
    /// Whether it did come through unchanged.
    pub fn passed(&self) -> (r: bool)
        ensures
            r == (self.media_error is None && self.video_hevc && self.audio_aac),
    {
        self.media_error.is_none() && self.video_hevc && self.audio_aac
    }
}

/// Judges an H.265 stream that should have come through unchanged.
pub fn judge_passthrough(probe: &Json) -> (r: Passthrough)
    ensures
        text_option(r.media_error) == media_fault(*probe, "HEVC SRT passthrough"@),
        r.video_hevc == (codec_in(*probe, "video"@) == Some("hevc"@) || codec_in(*probe, "video"@)
            == Some("h265"@)),
        r.audio_aac == (codec_in(*probe, "audio"@) == Some("aac"@)),
{
    let media_error: Option<String> = match assert_media_only(probe, "HEVC SRT passthrough") {
        Ok(_) => None,
        Err(message) => Some(message),
    };
    Passthrough { media_error, video_hevc: video_is_hevc(probe), audio_aac: audio_is_aac(probe) }
}

/// Whether the server says that a source is H.265.
pub fn check_source_is_hevc(probe: &Json) -> (r: Result<(), String>)
    ensures
        ({
            let codec = text_or(probe.field_or_null("video"@), "codec"@, "unknown"@);
            if codec == "hevc"@ {
                r is Ok
            } else {
                r is Err && r->Err_0@ == "source codec is "@ + codec + ", expected hevc"@
            }
        }),
{
    let null: Json = Json::Null;
    let codec: &str = match inner(probe, "video", &null).get_text("codec") {
        Some(name) => name,
        None => "unknown",
    };
    if same_text(codec, "hevc") {
        Ok(())
    } else {
        Err("source codec is ".to_string().concat(codec).concat(", expected hevc"))
    }
}

// ── Recordings ───────────────────────────────────────────────────────────────

/// What a look at a recording gave.
#[derive(Debug)]
pub enum RecordingLook {
    NotFound,
    TimedOut,
    /// The probe could not be run.
    NotRun { error: String },
    /// The probe ran and failed.
    Failed { stderr: String },
    /// What the probe printed could not be read.
    Unreadable { error: String },
    Probed { probe: Json },
}

/// Whether some stream is of a type.
pub open spec fn has_type(streams: Seq<Json>, kind: Seq<char>) -> bool {
    exists|i: int| 0 <= i < streams.len() && is_type(#[trigger] streams[i], kind)
}

/// Whether a look at a recording found video and audio.
pub open spec fn recording_right(look: RecordingLook) -> bool {
    match look {
        RecordingLook::Probed { probe } => match probe.list_field("streams"@) {
            Some(streams) => has_type(streams, "video"@) && has_type(streams, "audio"@),
            None => false,
        },
        _ => false,
    }
}

proof fn lemma_counted_type(streams: Seq<Json>, kind: Seq<char>)
    ensures
        type_count(streams, kind) > 0 <==> has_type(streams, kind),
{
    places_are_those_of_the_type(streams, kind);
    let p = places_of_type(streams, kind);
    if p.len() > 0 {
        assert(streams[p[0]].has_text("codec_type"@, kind));
        assert(is_type(streams[p[0]], kind));
    }
    if has_type(streams, kind) {
        let i = choose|i: int| 0 <= i < streams.len() && is_type(#[trigger] streams[i], kind);
        assert(streams[i].has_text("codec_type"@, kind));
        assert(p.contains(i));
    }
}

/// Judges a recording: it has video and audio. Where it does, the number of its streams is given.
pub fn judge_recording(look: &RecordingLook) -> (r: Result<usize, String>)
    ensures
        r is Ok <==> recording_right(*look),
        match *look {
            RecordingLook::NotFound => r is Err && r->Err_0@
                == "recording file not found in media dir"@,
            RecordingLook::TimedOut => r is Err && r->Err_0@ == "ffprobe timed out"@,
            RecordingLook::NotRun { error } => r is Err && r->Err_0@ == "ffprobe error: "@ + error@,
            RecordingLook::Failed { stderr } => r is Err && r->Err_0@ == "ffprobe failed: "@
                + stderr@,
            RecordingLook::Unreadable { error } => r is Err && r->Err_0@
                == "ffprobe parse failed: "@ + error@,
            RecordingLook::Probed { probe } => match probe.list_field("streams"@) {
                None => r is Err && r->Err_0@ == "no streams in ffprobe output"@,
                Some(streams) => {
                    let video = type_count(streams, "video"@) > 0;
                    let audio = type_count(streams, "audio"@) > 0;
                    if video && audio {
                        r is Ok && r->Ok_0 == streams.len()
                    } else {
                        r is Err && r->Err_0@ == "missing streams: video="@ + flag_word(video)
                            + " audio="@ + flag_word(audio)
                    }
                },
            },
        },
{
    match look {
        RecordingLook::NotFound => Err("recording file not found in media dir".to_string()),
        RecordingLook::TimedOut => Err("ffprobe timed out".to_string()),
        RecordingLook::NotRun { error } => Err(
            "ffprobe error: ".to_string().concat(error.as_str()),
        ),
        RecordingLook::Failed { stderr } => Err(
            "ffprobe failed: ".to_string().concat(stderr.as_str()),
        ),
        RecordingLook::Unreadable { error } => Err(
            "ffprobe parse failed: ".to_string().concat(error.as_str()),
        ),
        RecordingLook::Probed { probe } => match probe.get_list("streams") {
            None => Err("no streams in ffprobe output".to_string()),
            Some(streams) => {
                proof {
                    lemma_counted_type(streams@, "video"@);
                    lemma_counted_type(streams@, "audio"@);
                }
                let video: bool = count_type(streams, "video") > 0;
                let audio: bool = count_type(streams, "audio") > 0;
                if video && audio {
                    Ok(streams.len())
                } else {
                    Err(
                        "missing streams: video=".to_string().concat(flag_text(video)).concat(
                            " audio=",
                        ).concat(flag_text(audio)),
                    )
                }
            },
        },
    }
}

/// Whether everything that goes out is right: over RTMP, over SRT, and into a recording.
pub fn egress_passed(rtmp: bool, srt: bool, recording: &Result<usize, String>) -> (r: bool)
    ensures
        r == (rtmp && srt && recording is Ok),
{
    rtmp && srt && recording.is_ok()
}

// ── The interface ────────────────────────────────────────────────────────────

/// Judges what the server says of a pipeline that was just created: the server is well, it lists
/// the pipeline, and its health knows of it.
pub fn judge_created(healthz: &Json, list: &Json, health: &Json, id: &str) -> (r: Result<
    (),
    String,
>)
    ensures
        if *healthz == Json::Null {
            r is Err && r->Err_0@ == "healthz returned null"@
        } else {
            match list.list_field("pipelines"@) {
                None => r is Err && r->Err_0@ == "pipelines list not an array"@,
                Some(items) => if !lists_id(items, id@) {
                    r is Err && r->Err_0@ == "created pipeline "@ + id@ + " not found in list"@
                } else if health.field_or_null("pipelines"@).lacks(id@) {
                    r is Err && r->Err_0@ == "pipeline not in health snapshot"@
                } else {
                    r is Ok
                },
            }
        },
{
    let is_null: bool = match healthz {
        Json::Null => true,
        _ => false,
    };
    if is_null {
        return Err("healthz returned null".to_string());
    }
    match lists_pipeline(list, id) {
        None => Err("pipelines list not an array".to_string()),
        Some(false) => Err(
            "created pipeline ".to_string().concat(id).concat(" not found in list"),
        ),
        Some(true) => if health_knows(health, id) {
            Ok(())
        } else {
            Err("pipeline not in health snapshot".to_string())
        },
    }
}

/// Judges whether a pipeline is still there after the server was started again.
pub fn judge_survived(list: &Json, id: &str) -> (r: Result<(), String>)
    ensures
        match list.list_field("pipelines"@) {
            None => r is Err && r->Err_0@ == "pipelines list after restart not an array"@,
            Some(items) => if lists_id(items, id@) {
                r is Ok
            } else {
                r is Err && r->Err_0@ == "pipeline "@ + id@ + " did not survive restart"@
            },
        },
{
    match lists_pipeline(list, id) {
        None => Err("pipelines list after restart not an array".to_string()),
        Some(false) => Err("pipeline ".to_string().concat(id).concat(" did not survive restart")),
        Some(true) => Ok(()),
    }
}

// ── Laws ─────────────────────────────────────────────────────────────────────

proof fn lemma_first_has_the_type(streams: Seq<Json>, kind: Seq<char>)
    ensures
        first_of_type(streams, kind) matches Some(stream) ==> stream.has_text("codec_type"@, kind)
            && streams.contains(stream),
        first_of_type(streams, kind) is None <==> forall|i: int|
            0 <= i < streams.len() ==> !(#[trigger] streams[i]).has_text("codec_type"@, kind),
    decreases streams.len(),
{
    if streams.len() > 0 {
        let rest = streams.skip(1);
        lemma_first_has_the_type(rest, kind);
        if streams[0].has_text("codec_type"@, kind) {
            assert(streams.contains(streams[0]));
        } else {
            assert forall|i: int| 0 <= i < streams.len() && i > 0 implies #[trigger] streams[i]
                == rest[i - 1] by {}
            if let Some(stream) = first_of_type(rest, kind) {
                let k = choose|k: int| 0 <= k < rest.len() && rest[k] == stream;
                assert(streams[k + 1] == stream);
                assert(!(forall|i: int|
                    0 <= i < streams.len() ==> !(#[trigger] streams[i]).has_text(
                        "codec_type"@,
                        kind,
                    )));
            } else {
                assert forall|i: int| 0 <= i < streams.len() implies !(
                #[trigger] streams[i]).has_text("codec_type"@, kind) by {
                    if i > 0 {
                        assert(!rest[i - 1].has_text("codec_type"@, kind));
                    }
                }
            }
        }
    }
}

/// The stream whose codec is judged is of the type that is asked for, and one of the probe's.
pub proof fn judged_stream_has_the_type(streams: Seq<Json>, kind: Seq<char>)
    ensures
        first_of_type(streams, kind) matches Some(stream) ==> stream.has_text("codec_type"@, kind)
            && streams.contains(stream),
{
    lemma_first_has_the_type(streams, kind);
}

/// The codec of a probe is that of the first stream of the type, and of no other.
pub proof fn codec_is_that_of_the_first_stream(
    probe: Json,
    streams: Seq<Json>,
    kind: Seq<char>,
    at: int,
)
    requires
        probe.list_field("streams"@) == Some(streams),
        0 <= at < streams.len(),
        streams[at].text_field("codec_type"@) == Some(kind),
        forall|i: int|
            0 <= i < at ==> (#[trigger] streams[i]).text_field("codec_type"@) != Some(kind),
    ensures
        codec_in(probe, kind) == streams[at].text_field("codec_name"@),
{
    lemma_first_stands(streams, kind, at);
}

proof fn lemma_first_stands(streams: Seq<Json>, kind: Seq<char>, at: int)
    requires
        0 <= at < streams.len(),
        streams[at].text_field("codec_type"@) == Some(kind),
        forall|i: int|
            0 <= i < at ==> (#[trigger] streams[i]).text_field("codec_type"@) != Some(kind),
    ensures
        first_of_type(streams, kind) == Some(streams[at]),
    decreases at,
{
    if at > 0 {
        assert(streams[0].text_field("codec_type"@) != Some(kind));
        assert forall|i: int| 0 <= i < at - 1 implies (#[trigger] streams.skip(1)[i]).text_field(
            "codec_type"@,
        ) != Some(kind) by {
            assert(streams.skip(1)[i] == streams[i + 1]);
        }
        lemma_first_stands(streams.skip(1), kind, at - 1);
    }
}

/// A read is right exactly when its streams are one video with audio, and the server tells of them
/// what the probe shows: codec, width and height of the video, and codec, sample rate and channels
/// of the first audio.
pub proof fn right_reads_are_told_as_they_are(
    snapshot: Json,
    streams: Seq<Json>,
    s: Seq<StreamSummary>,
    v: int,
    a: int,
)
    requires
        media_only(streams),
        told_alike(snapshot, streams, s),
        first_of_its_type(streams, v, "video"@),
        first_of_its_type(streams, a, "audio"@),
    ensures
        ({
            let input = snapshot.field_or_null("input"@);
            let seen = input.field_or_null("video"@);
            &&& equal_json(seen.field_or_null("codec"@), streams[v].field_or_null("codec_name"@))
            &&& equal_json(seen.field_or_null("width"@), streams[v].field_or_null("width"@))
            &&& equal_json(seen.field_or_null("height"@), streams[v].field_or_null("height"@))
            &&& input.list_field("audioTracks"@) is Some
            &&& input.list_field("audioTracks"@)->0.len() > 0
            &&& equal_json(
                input.list_field("audioTracks"@)->0[0].field_or_null("codec"@),
                streams[a].field_or_null("codec_name"@),
            )
            &&& equal_json(
                input.list_field("audioTracks"@)->0[0].field_or_null("channels"@),
                streams[a].field_or_null("channels"@),
            )
        }),
{
    match_is_with_the_streams(snapshot, streams, s, v, a);
}

/// The media of a probe are at fault exactly when its streams are not one video with audio.
pub proof fn media_are_at_fault_or_right(probe: Json, label: Seq<char>)
    ensures
        media_fault(probe, label) is None <==> probe.list_field("streams"@) is Some && media_only(
            probe.list_field("streams"@)->0,
        ),
        probe.list_field("streams"@) is None ==> media_fault(probe, label) == Some(
            label + ": ffprobe output has no streams"@,
        ),
{
}

/// A recording is right exactly when its probe was read and shows a stream of video and one of audio;
/// one that was not found, not probed or not read is not.
pub proof fn right_recordings_have_video_and_audio(
    probe: Json,
    streams: Seq<Json>,
    v: int,
    a: int,
    error: String,
)
    requires
        probe.list_field("streams"@) == Some(streams),
        0 <= v < streams.len(),
        0 <= a < streams.len(),
        streams[v].text_field("codec_type"@) == Some("video"@),
        streams[a].text_field("codec_type"@) == Some("audio"@),
    ensures
        recording_right(RecordingLook::Probed { probe }),
        !recording_right(RecordingLook::NotFound) && !recording_right(RecordingLook::TimedOut)
            && !recording_right(RecordingLook::NotRun { error }) && !recording_right(
            RecordingLook::Failed { stderr: error },
        ) && !recording_right(RecordingLook::Unreadable { error }) && !recording_right(
            RecordingLook::Probed { probe: Json::Null },
        ),
{
    assert(is_type(streams[v], "video"@));
    assert(is_type(streams[a], "audio"@));
}

} // verus!
