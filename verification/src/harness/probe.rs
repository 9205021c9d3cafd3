//! What a probe of a stream shows: its streams, its packets, and whether they are as expected.

use vstd::prelude::*;
use vstd::string::*;

use crate::json::{equal_json, json_equal, json_text, print_json, same_json, Json};
use crate::number::{decimal, decimal_text, parse_undoes_decimal, parse_unsigned, parsed};
use crate::sbom::{lemma_equal_then_same, lemma_same_symmetric};
use crate::text::{quote_list, quoted_list, same_text, texts};

verus! {

// ── Packets ──────────────────────────────────────────────────────────────────

/// The times of a packet, as numbers that are ordered as the times are.
#[derive(Debug, Clone, Copy, PartialEq, Eq, Structural)]
pub struct PacketTimes {
    /// When it is shown.
    pub pts: Option<i64>,
    /// When it is decoded.
    pub dts: Option<i64>,
}

/// How many packets have a time of decoding.
pub open spec fn timed_packets(packets: Seq<PacketTimes>) -> nat
    decreases packets.len(),
{
    if packets.len() == 0 {
        0
    } else {
        timed_packets(packets.drop_last()) + if packets.last().dts is Some {
            1nat
        } else {
            0nat
        }
    }
}

/// Whether a packet is shown later than it is decoded.
pub open spec fn is_reordered(packet: PacketTimes) -> bool {
    packet.pts is Some && packet.dts is Some && packet.pts->0 > packet.dts->0
}

/// How many packets are shown later than they are decoded.
pub open spec fn reordered_packets(packets: Seq<PacketTimes>) -> nat
    decreases packets.len(),
{
    if packets.len() == 0 {
        0
    } else {
        reordered_packets(packets.drop_last()) + if is_reordered(packets.last()) {
            1nat
        } else {
            0nat
        }
    }
}

/// Whether no packet is decoded before one that comes earlier.
pub open spec fn dts_in_order(packets: Seq<PacketTimes>) -> bool {
    forall|i: int, j: int|
        0 <= i < j < packets.len() && (#[trigger] packets[i]).dts is Some && (
        #[trigger] packets[j]).dts is Some ==> packets[i].dts->0 <= packets[j].dts->0
}

/// How many packets have a time of decoding.
pub fn count_video_packets(packets: &Vec<PacketTimes>) -> (r: usize)
    ensures
        r == timed_packets(packets@),
{
    let mut n: usize = 0;
    let mut i: usize = 0;
    assert(packets@.take(0) =~= Seq::<PacketTimes>::empty());
    while i < packets.len()
        invariant
            i <= packets@.len(),
            n <= i,
            n == timed_packets(packets@.take(i as int)),
        decreases packets@.len() - i,
    {
        assert(packets@.take(i + 1).drop_last() =~= packets@.take(i as int));
        if packets[i].dts.is_some() {
            n += 1;
        }
        i += 1;
    }
    assert(packets@.take(packets@.len() as int) =~= packets@);
    n
}

/// How many packets are shown later than they are decoded, as B-frames are.
pub fn count_bframe_packets(packets: &Vec<PacketTimes>) -> (r: usize)
    ensures
        r == reordered_packets(packets@),
{
    let mut n: usize = 0;
    let mut i: usize = 0;
    assert(packets@.take(0) =~= Seq::<PacketTimes>::empty());
    while i < packets.len()
        invariant
            i <= packets@.len(),
            n <= i,
            n == reordered_packets(packets@.take(i as int)),
        decreases packets@.len() - i,
    {
        assert(packets@.take(i + 1).drop_last() =~= packets@.take(i as int));
        if let (Some(pts), Some(dts)) = (packets[i].pts, packets[i].dts) {
            if pts > dts {
                n += 1;
            }
        }
        i += 1;
    }
    assert(packets@.take(packets@.len() as int) =~= packets@);
    n
}

/// Whether no packet is decoded before one that comes earlier.
pub fn video_dts_monotone(packets: &Vec<PacketTimes>) -> (r: bool)
    ensures
        r == dts_in_order(packets@),
{
    let mut last: Option<i64> = None;
    let ghost mut at: int = -1;
    let mut i: usize = 0;
    while i < packets.len()
        invariant
            i <= packets@.len(),
            last is None ==> forall|k: int| 0 <= k < i ==> (#[trigger] packets@[k]).dts is None,
            last is Some ==> 0 <= at < i && packets@[at].dts == last && forall|k: int|
                0 <= k < i && (#[trigger] packets@[k]).dts is Some ==> packets@[k].dts->0 <= last->0,
            forall|j: int, k: int|
                0 <= j < k < i && (#[trigger] packets@[j]).dts is Some && (
                #[trigger] packets@[k]).dts is Some ==> packets@[j].dts->0 <= packets@[k].dts->0,
        decreases packets@.len() - i,
    {
        if let Some(dts) = packets[i].dts {
            if let Some(previous) = last {
                if dts < previous {
                    assert(packets@[at].dts is Some && packets@[i as int].dts is Some);
                    return false;
                }
            }
            last = Some(dts);
            proof {
                at = i as int;
            }
        }
        i += 1;
    }
    true
}

// ── Streams ──────────────────────────────────────────────────────────────────

/// What is compared of a stream.
#[derive(Debug)]
pub enum StreamSummary {
    Video { codec: Json, width: Json, height: Json },
    Audio { codec: Json, sample_rate: Json, channels: Json },
}

/// Whether a stream is of a type.
pub open spec fn is_type(stream: Json, kind: Seq<char>) -> bool {
    stream.has_text("codec_type"@, kind)
}

/// The places of the streams of a type, in order.
pub open spec fn places_of_type(streams: Seq<Json>, kind: Seq<char>) -> Seq<int>
    decreases streams.len(),
{
    if streams.len() == 0 {
        Seq::empty()
    } else if is_type(streams.last(), kind) {
        places_of_type(streams.drop_last(), kind).push(streams.len() - 1)
    } else {
        places_of_type(streams.drop_last(), kind)
    }
}

/// Whether a summary is that of a stream.
pub open spec fn summarizes(s: StreamSummary, stream: Json) -> bool {
    match s {
        StreamSummary::Video { codec, width, height } => is_type(stream, "video"@) && same_json(
            codec,
            stream.field_or_null("codec_name"@),
        ) && same_json(width, stream.field_or_null("width"@)) && same_json(
            height,
            stream.field_or_null("height"@),
        ),
        StreamSummary::Audio { codec, sample_rate, channels } => is_type(stream, "audio"@)
            && same_json(codec, stream.field_or_null("codec_name"@)) && same_json(
            sample_rate,
            stream.field_or_null("sample_rate"@),
        ) && same_json(channels, stream.field_or_null("channels"@)),
    }
}

/// Whether summaries are those of the streams at the given places.
pub open spec fn summarize_all(s: Seq<StreamSummary>, streams: Seq<Json>, places: Seq<int>) -> bool {
    s.len() == places.len() && forall|k: int|
        0 <= k < s.len() ==> summarizes(#[trigger] s[k], streams[places[k]])
}

fn summarize_type(streams: &Vec<Json>, video: bool) -> (r: Vec<StreamSummary>)
    ensures
        summarize_all(
            r@,
            streams@,
            places_of_type(
                streams@,
                if video {
                    "video"@
                } else {
                    "audio"@
                },
            ),
        ),
{
    let kind: &str = if video {
        "video"
    } else {
        "audio"
    };
    let mut out: Vec<StreamSummary> = Vec::new();
    let mut i: usize = 0;
    assert(streams@.take(0) =~= Seq::<Json>::empty());
    while i < streams.len()
        invariant
            i <= streams@.len(),
            kind@ == (if video {
                "video"@
            } else {
                "audio"@
            }),
            summarize_all(out@, streams@, places_of_type(streams@.take(i as int), kind@)),
        decreases streams@.len() - i,
    {
        assert(streams@.take(i + 1).drop_last() =~= streams@.take(i as int));
        let stream: &Json = &streams[i];
        let ghost before = out@;
        let ghost places = places_of_type(streams@.take(i as int), kind@);
        if stream.text_is("codec_type", kind) {
            let codec: Json = stream.copy_field("codec_name");
            if video {
                out.push(
                    StreamSummary::Video {
                        codec,
                        width: stream.copy_field("width"),
                        height: stream.copy_field("height"),
                    },
                );
            } else {
                out.push(
                    StreamSummary::Audio {
                        codec,
                        sample_rate: stream.copy_field("sample_rate"),
                        channels: stream.copy_field("channels"),
                    },
                );
            }
            assert forall|k: int| 0 <= k < out@.len() implies summarizes(
                #[trigger] out@[k],
                streams@[places.push(i as int)[k]],
            ) by {
                if k < before.len() {
                    assert(out@[k] == before[k]);
                }
            }
        }
        i += 1;
    }
    assert(streams@.take(streams@.len() as int) =~= streams@);
    out
}

/// The places of the media streams, audio first.
pub open spec fn media_places(streams: Seq<Json>) -> Seq<int> {
    places_of_type(streams, "audio"@) + places_of_type(streams, "video"@)
}

/// What is compared of the streams of a probe: audio first, then video, each in their order.
pub fn normalized_streams(probe: &Json) -> (r: Result<Vec<StreamSummary>, String>)
    ensures
        match r {
            Ok(s) => probe.list_field("streams"@) is Some && summarize_all(
                s@,
                probe.list_field("streams"@)->0,
                media_places(probe.list_field("streams"@)->0),
            ),
            Err(message) => probe.list_field("streams"@) is None && message@
                == "ffprobe output has no streams"@,
        },
{
    match probe.get_list("streams") {
        None => Err("ffprobe output has no streams".to_string()),
        Some(streams) => {
            let mut all: Vec<StreamSummary> = summarize_type(streams, false);
            let mut video: Vec<StreamSummary> = summarize_type(streams, true);
            let ghost a = all@;
            let ghost v = video@;
            all.append(&mut video);
            proof {
                let (pa, pv) = (
                    places_of_type(streams@, "audio"@),
                    places_of_type(streams@, "video"@),
                );
                assert forall|k: int| 0 <= k < all@.len() implies summarizes(
                    #[trigger] all@[k],
                    streams@[(pa + pv)[k]],
                ) by {
                    if k < a.len() {
                        assert(all@[k] == a[k]);
                    } else {
                        assert(all@[k] == v[k - a.len()]);
                    }
                }
            }
            Ok(all)
        },
    }
}

/// How many streams are of a type.
pub open spec fn type_count(streams: Seq<Json>, kind: Seq<char>) -> nat {
    places_of_type(streams, kind).len()
}

/// The types of the streams that are neither video nor audio, in order.
pub open spec fn other_types(streams: Seq<Json>) -> Seq<Seq<char>>
    decreases streams.len(),
{
    if streams.len() == 0 {
        Seq::empty()
    } else {
        match streams.last().text_field("codec_type"@) {
            Some(kind) => if kind == "video"@ || kind == "audio"@ {
                other_types(streams.drop_last())
            } else {
                other_types(streams.drop_last()).push(kind)
            },
            None => other_types(streams.drop_last()),
        }
    }
}

/// How many streams are of a type.
pub fn count_type(streams: &Vec<Json>, kind: &str) -> (r: usize)
    ensures
        r == type_count(streams@, kind@),
{
    let mut n: usize = 0;
    let mut i: usize = 0;
    assert(streams@.take(0) =~= Seq::<Json>::empty());
    while i < streams.len()
        invariant
            i <= streams@.len(),
            n <= i,
            n == type_count(streams@.take(i as int), kind@),
        decreases streams@.len() - i,
    {
        assert(streams@.take(i + 1).drop_last() =~= streams@.take(i as int));
        if streams[i].text_is("codec_type", kind) {
            n += 1;
        }
        i += 1;
    }
    assert(streams@.take(streams@.len() as int) =~= streams@);
    n
}

fn other_type_list(streams: &Vec<Json>) -> (r: Vec<String>)
    ensures
        texts(r@) == other_types(streams@),
{
    let mut out: Vec<String> = Vec::new();
    let mut i: usize = 0;
    assert(streams@.take(0) =~= Seq::<Json>::empty());
    assert(texts(out@) =~= Seq::<Seq<char>>::empty());
    while i < streams.len()
        invariant
            i <= streams@.len(),
            texts(out@) == other_types(streams@.take(i as int)),
        decreases streams@.len() - i,
    {
        assert(streams@.take(i + 1).drop_last() =~= streams@.take(i as int));
        if let Some(kind) = streams[i].get_text("codec_type") {
            if !same_text(kind, "video") && !same_text(kind, "audio") {
                let ghost before = out@;
                out.push(kind.to_string());
                assert(texts(out@) =~= texts(before).push(kind@));
            }
        }
        i += 1;
    }
    assert(streams@.take(streams@.len() as int) =~= streams@);
    out
}

/// Whether streams are one video, at least one audio, and nothing else.
pub open spec fn media_only(streams: Seq<Json>) -> bool {
    other_types(streams).len() == 0 && type_count(streams, "video"@) == 1 && type_count(
        streams,
        "audio"@,
    ) >= 1
}

/// What is said of streams that are not as expected, with the other types shown as `shown`.
pub open spec fn media_complaint(label: Seq<char>, streams: Seq<Json>, shown: Seq<char>) -> Seq<
    char,
> {
    label + ": expected 1 video + >=1 audio, got video="@ + decimal(type_count(streams, "video"@))
        + " audio="@ + decimal(type_count(streams, "audio"@)) + " non_media="@ + shown
}

/// Whether a probe shows one video, at least one audio, and nothing else.
pub fn assert_media_only(probe: &Json, label: &str) -> (r: Result<(), String>)
    ensures
        match probe.list_field("streams"@) {
            None => r is Err && r->Err_0@ == label@ + ": ffprobe output has no streams"@,
            Some(streams) => match r {
                Ok(_) => media_only(streams),
                Err(message) => !media_only(streams) && message@ == media_complaint(
                    label@,
                    streams,
                    quoted_list(other_types(streams)),
                ),
            },
        },
{
    match probe.get_list("streams") {
        None => Err(label.to_string().concat(": ffprobe output has no streams")),
        Some(streams) => {
            let others: Vec<String> = other_type_list(streams);
            let shown: String = quote_list(&others);
            check_media_only(streams, shown.as_str(), label)
        },
    }
}

/// Whether streams are one video, at least one audio, and nothing else; `shown` is how the types of
/// the others are shown.
pub fn check_media_only(streams: &Vec<Json>, shown: &str, label: &str) -> (r: Result<(), String>)
    ensures
        match r {
            Ok(_) => media_only(streams@),
            Err(message) => !media_only(streams@) && message@ == media_complaint(
                label@,
                streams@,
                shown@,
            ),
        },
{
    let video: usize = count_type(streams, "video");
    let audio: usize = count_type(streams, "audio");
    let others: Vec<String> = other_type_list(streams);
    assert(texts(others@).len() == others@.len());
    if others.len() != 0 || video != 1 || audio < 1 {
        return Err(
            label.to_string().concat(": expected 1 video + >=1 audio, got video=").concat(
                decimal_text(video as u64).as_str(),
            ).concat(" audio=").concat(decimal_text(audio as u64).as_str()).concat(
                " non_media=",
            ).concat(shown),
        );
    }
    Ok(())
}

// ── The engine against the probe ─────────────────────────────────────────────

/// The first summary of video, or of audio.
pub open spec fn first_summary(s: Seq<StreamSummary>, video: bool) -> Option<StreamSummary>
    decreases s.len(),
{
    if s.len() == 0 {
        None
    } else if (s[0] is Video) == video {
        Some(s[0])
    } else {
        first_summary(s.skip(1), video)
    }
}

fn find_summary(s: &Vec<StreamSummary>, video: bool) -> (r: Option<&StreamSummary>)
    ensures
        match r {
            Some(x) => first_summary(s@, video) == Some(*x) && (x is Video) == video,
            None => first_summary(s@, video) is None,
        },
{
    let mut i: usize = 0;
    assert(s@.skip(0) =~= s@);
    while i < s.len()
        invariant
            i <= s@.len(),
            first_summary(s@, video) == first_summary(s@.skip(i as int), video),
        decreases s@.len() - i,
    {
        assert(s@.skip(i as int)[0] == s@[i as int]);
        assert(s@.skip(i as int).skip(1) =~= s@.skip(i + 1));
        let is_video: bool = match &s[i] {
            StreamSummary::Video { .. } => true,
            StreamSummary::Audio { .. } => false,
        };
        if is_video == video {
            return Some(&s[i]);
        }
        i += 1;
    }
    None
}

/// The sample rate that a value writes, as a number or as a text.
pub open spec fn sample_rate_of(value: Json) -> Option<u64> {
    match value {
        Json::Text(t) => match parsed(t@, u64::MAX as int) {
            Some(n) => Some(n as u64),
            None => None,
        },
        Json::Unsigned(n) => Some(n),
        _ => None,
    }
}

fn sample_rate_in(value: &Json) -> (r: Option<u64>)
    ensures
        r == sample_rate_of(*value),
{
    match value {
        Json::Text(t) => parse_unsigned(t.as_str(), u64::MAX),
        Json::Unsigned(n) => Some(*n),
        _ => None,
    }
}

/// The first audio track that the engine reports.
pub open spec fn engine_audio(snapshot: Json) -> Option<Json> {
    match snapshot.field_or_null("input"@).list_field("audioTracks"@) {
        Some(tracks) => if tracks.len() > 0 {
            Some(tracks[0])
        } else {
            None
        },
        None => None,
    }
}

/// Whether what the engine reports is what the probe found.
pub open spec fn engine_agrees(snapshot: Json, video: StreamSummary, audio: StreamSummary) -> bool {
    match (video, audio, engine_audio(snapshot)) {
        (
            StreamSummary::Video { codec, width, height },
            StreamSummary::Audio { codec: audio_codec, sample_rate, channels },
            Some(track),
        ) => {
            let seen = snapshot.field_or_null("input"@).field_or_null("video"@);
            &&& equal_json(seen.field_or_null("codec"@), codec)
            &&& equal_json(seen.field_or_null("width"@), width)
            &&& equal_json(seen.field_or_null("height"@), height)
            &&& equal_json(track.field_or_null("codec"@), audio_codec)
            &&& track.u64_field("sampleRate"@) == sample_rate_of(sample_rate)
            &&& equal_json(track.field_or_null("channels"@), channels)
        },
        _ => false,
    }
}

/// Why a comparison fails.
#[derive(Debug, Clone, Copy, PartialEq, Eq, Structural)]
pub enum Mismatch {
    NoVideo,
    NoAudio,
    SnapshotWithoutAudio,
    Differs,
}

/// Why a comparison fails, if it does.
pub open spec fn mismatch(snapshot: Json, normalized: Seq<StreamSummary>) -> Option<Mismatch> {
    match first_summary(normalized, true) {
        None => Some(Mismatch::NoVideo),
        Some(video) => match first_summary(normalized, false) {
            None => Some(Mismatch::NoAudio),
            Some(audio) => if engine_audio(snapshot) is None {
                Some(Mismatch::SnapshotWithoutAudio)
            } else if !engine_agrees(snapshot, video, audio) {
                Some(Mismatch::Differs)
            } else {
                None
            },
        },
    }
}

fn field_equals(j: &Json, name: &str, value: &Json) -> (r: bool)
    ensures
        r == equal_json(j.field_or_null(name@), *value),
{
    match j.get(name) {
        Some(f) => json_equal(f, value),
        None => json_equal(&Json::Null, value),
    }
}

/// Whether what the engine reports is what the probe found; else why not.
pub fn compare_with_probe(snapshot: &Json, normalized: &Vec<StreamSummary>) -> (r: Option<Mismatch>)
    ensures
        r == mismatch(*snapshot, normalized@),
{
    let video: &StreamSummary = match find_summary(normalized, true) {
        Some(v) => v,
        None => {
            return Some(Mismatch::NoVideo);
        },
    };
    let audio: &StreamSummary = match find_summary(normalized, false) {
        Some(a) => a,
        None => {
            return Some(Mismatch::NoAudio);
        },
    };
    let null: Json = Json::Null;
    let input: &Json = match snapshot.get("input") {
        Some(i) => i,
        None => &null,
    };
    let track: &Json = match input.get_list("audioTracks") {
        Some(tracks) => if tracks.len() > 0 {
            &tracks[0]
        } else {
            return Some(Mismatch::SnapshotWithoutAudio);
        },
        None => {
            return Some(Mismatch::SnapshotWithoutAudio);
        },
    };
    let seen: &Json = match input.get("video") {
        Some(v) => v,
        None => &null,
    };
    let agrees: bool = match (video, audio) {
        (
            StreamSummary::Video { codec, width, height },
            StreamSummary::Audio { codec: audio_codec, sample_rate, channels },
        ) => {
            let rate: Option<u64> = sample_rate_in(sample_rate);
            let engine_rate: Option<u64> = track.get_u64("sampleRate");
            let same_rate: bool = match (rate, engine_rate) {
                (Some(a), Some(b)) => a == b,
                (None, None) => true,
                _ => false,
            };
            field_equals(seen, "codec", codec) && field_equals(seen, "width", width)
                && field_equals(seen, "height", height) && field_equals(track, "codec", audio_codec)
                && same_rate && field_equals(track, "channels", channels)
        },
        _ => false,
    };
    if agrees {
        None
    } else {
        Some(Mismatch::Differs)
    }
}

/// Whether a field has the given name and says the same as a value.
pub open spec fn is_item(item: (String, Json), name: Seq<char>, value: Json) -> bool {
    item.0@ == name && same_json(item.1, value)
}

/// Whether a value shows a summary.
pub open spec fn shows_one(j: Json, s: StreamSummary) -> bool {
    match j {
        Json::Object(fields) => {
            let f = fields@;
            &&& f.len() == 4
            &&& match s {
                StreamSummary::Video { codec, width, height } => {
                    &&& f[0].0@ == "type"@ && f[0].1.as_text() == Some("video"@)
                    &&& is_item(f[1], "codec"@, codec)
                    &&& is_item(f[2], "width"@, width)
                    &&& is_item(f[3], "height"@, height)
                },
                StreamSummary::Audio { codec, sample_rate, channels } => {
                    &&& f[0].0@ == "type"@ && f[0].1.as_text() == Some("audio"@)
                    &&& is_item(f[1], "codec"@, codec)
                    &&& is_item(f[2], "sampleRate"@, sample_rate)
                    &&& is_item(f[3], "channels"@, channels)
                },
            }
        },
        _ => false,
    }
}

/// Whether a value shows summaries.
pub open spec fn shows_all(j: Json, s: Seq<StreamSummary>) -> bool {
    j matches Json::List(v) && v@.len() == s.len() && forall|i: int|
        0 <= i < s.len() ==> shows_one(#[trigger] v@[i], s[i])
}

fn summary_json(s: &StreamSummary) -> (r: Json)
    ensures
        shows_one(r, *s),
{
    let mut f: Vec<(String, Json)> = Vec::new();
    match s {
        StreamSummary::Video { codec, width, height } => {
            f.push(("type".to_string(), Json::Text("video".to_string())));
            f.push(("codec".to_string(), codec.duplicate()));
            f.push(("width".to_string(), width.duplicate()));
            f.push(("height".to_string(), height.duplicate()));
        },
        StreamSummary::Audio { codec, sample_rate, channels } => {
            f.push(("type".to_string(), Json::Text("audio".to_string())));
            f.push(("codec".to_string(), codec.duplicate()));
            f.push(("sampleRate".to_string(), sample_rate.duplicate()));
            f.push(("channels".to_string(), channels.duplicate()));
        },
    }
    Json::Object(f)
}

/// The value that shows summaries.
pub fn summaries_json(s: &Vec<StreamSummary>) -> (r: Json)
    ensures
        shows_all(r, s@),
{
    let mut out: Vec<Json> = Vec::new();
    let mut i: usize = 0;
    while i < s.len()
        invariant
            i <= s@.len(),
            out@.len() == i,
            forall|k: int| 0 <= k < i ==> shows_one(#[trigger] out@[k], s@[k]),
        decreases s@.len() - i,
    {
        out.push(summary_json(&s[i]));
        i += 1;
    }
    Json::List(out)
}

/// Whether this is what is said of a comparison that fails.
pub open spec fn mismatch_said(
    why: Mismatch,
    snapshot: Json,
    normalized: Seq<StreamSummary>,
    label: Seq<char>,
    said: Seq<char>,
) -> bool {
    match why {
        Mismatch::NoVideo => said == label + ": missing normalized video"@,
        Mismatch::NoAudio => said == label + ": missing normalized audio"@,
        Mismatch::SnapshotWithoutAudio => said == label + ": snapshot missing audio"@,
        Mismatch::Differs => exists|j: Json|
            shows_all(j, normalized) && said == label
                + ": engine snapshot does not match external probe: snapshot="@ + json_text(
                snapshot,
            ) + " probe="@ + #[trigger] json_text(j),
    }
}

/// Whether what the engine reports is what the probe found; else a message that says why not.
pub fn assert_snapshot_matches_probe(
    snapshot: &Json,
    normalized: &Vec<StreamSummary>,
    label: &str,
) -> (r: Result<(), String>)
    ensures
        match mismatch(*snapshot, normalized@) {
            None => r is Ok,
            Some(why) => r is Err && mismatch_said(
                why,
                *snapshot,
                normalized@,
                label@,
                r->Err_0@,
            ),
        },
{
    match compare_with_probe(snapshot, normalized) {
        None => Ok(()),
        Some(Mismatch::NoVideo) => Err(label.to_string().concat(": missing normalized video")),
        Some(Mismatch::NoAudio) => Err(label.to_string().concat(": missing normalized audio")),
        Some(Mismatch::SnapshotWithoutAudio) => Err(
            label.to_string().concat(": snapshot missing audio"),
        ),
        Some(Mismatch::Differs) => {
            let shown: Json = summaries_json(normalized);
            Err(
                label.to_string().concat(
                    ": engine snapshot does not match external probe: snapshot=",
                ).concat(print_json(snapshot).as_str()).concat(" probe=").concat(
                    print_json(&shown).as_str(),
                ),
            )
        },
    }
}

// ── Laws ─────────────────────────────────────────────────────────────────────

/// Whether the first summary of video, or of audio, stands here.
pub open spec fn stands_first(s: Seq<StreamSummary>, at: int, video: bool) -> bool {
    &&& 0 <= at < s.len()
    &&& (s[at] is Video) == video
    &&& forall|i: int| 0 <= i < at ==> ((#[trigger] s[i]) is Video) != video
}

proof fn lemma_stands_first(s: Seq<StreamSummary>, at: int, video: bool)
    requires
        stands_first(s, at, video),
    ensures
        first_summary(s, video) == Some(s[at]),
    decreases at,
{
    if at > 0 {
        assert((s[0] is Video) != video);
        let rest = s.skip(1);
        assert forall|i: int| 0 <= i < at - 1 implies ((#[trigger] rest[i]) is Video) != video by {
            assert(rest[i] == s[i + 1]);
        }
        lemma_stands_first(rest, at - 1, video);
    }
}

proof fn lemma_none_stands(s: Seq<StreamSummary>, video: bool)
    requires
        forall|i: int| 0 <= i < s.len() ==> ((#[trigger] s[i]) is Video) != video,
    ensures
        first_summary(s, video) is None,
    decreases s.len(),
{
    if s.len() > 0 {
        assert((s[0] is Video) != video);
        assert forall|i: int| 0 <= i < s.skip(1).len() implies ((#[trigger] s.skip(1)[i]) is Video)
            != video by {
            assert(s.skip(1)[i] == s[i + 1]);
        }
        lemma_none_stands(s.skip(1), video);
    }
}

/// What the engine reports matches a probe exactly when each of these agrees: the codec, the width
/// and the height of its video with those of the first video, and the codec, the sample rate and the
/// channels of its first audio track with those of the first audio.
pub proof fn match_is_field_by_field(snapshot: Json, s: Seq<StreamSummary>, v: int, a: int)
    requires
        stands_first(s, v, true),
        stands_first(s, a, false),
    ensures
        mismatch(snapshot, s) is None <==> {
            let input = snapshot.field_or_null("input"@);
            let seen = input.field_or_null("video"@);
            match (s[v], s[a], input.list_field("audioTracks"@)) {
                (
                    StreamSummary::Video { codec: video_codec, width, height },
                    StreamSummary::Audio { codec: audio_codec, sample_rate, channels },
                    Some(tracks),
                ) => tracks.len() > 0 && equal_json(seen.field_or_null("codec"@), video_codec)
                    && equal_json(seen.field_or_null("width"@), width) && equal_json(
                    seen.field_or_null("height"@),
                    height,
                ) && equal_json(tracks[0].field_or_null("codec"@), audio_codec)
                    && tracks[0].u64_field("sampleRate"@) == sample_rate_of(sample_rate)
                    && equal_json(tracks[0].field_or_null("channels"@), channels),
                _ => false,
            }
        },
{
    lemma_stands_first(s, v, true);
    lemma_stands_first(s, a, false);
}

/// A comparison says what is missing: a video, else an audio, else an audio track of the engine.
pub proof fn mismatch_says_what_is_missing(snapshot: Json, s: Seq<StreamSummary>)
    ensures
        mismatch(snapshot, s) == Some(Mismatch::NoVideo) <==> forall|i: int|
            0 <= i < s.len() ==> !((#[trigger] s[i]) is Video),
        mismatch(snapshot, s) == Some(Mismatch::NoAudio) ==> forall|i: int|
            0 <= i < s.len() ==> (#[trigger] s[i]) is Video,
        mismatch(snapshot, s) == Some(Mismatch::SnapshotWithoutAudio) ==> (
        match snapshot.field_or_null("input"@).list_field("audioTracks"@) {
            Some(tracks) => tracks.len() == 0,
            None => true,
        }),
{
    if forall|i: int| 0 <= i < s.len() ==> !((#[trigger] s[i]) is Video) {
        lemma_none_stands(s, true);
    } else {
        lemma_some_stands(s, true);
    }
    if !(forall|i: int| 0 <= i < s.len() ==> (#[trigger] s[i]) is Video) {
        lemma_some_stands(s, false);
    }
}

proof fn lemma_some_stands(s: Seq<StreamSummary>, video: bool)
    requires
        exists|i: int| 0 <= i < s.len() && ((#[trigger] s[i]) is Video) == video,
    ensures
        first_summary(s, video) is Some,
    decreases s.len(),
{
    let i = choose|i: int| 0 <= i < s.len() && ((#[trigger] s[i]) is Video) == video;
    if (s[0] is Video) != video {
        assert(s.skip(1)[i - 1] == s[i]);
        lemma_some_stands(s.skip(1), video);
    }
}

/// A sample rate is read from a number, and from the decimal text of a number.
pub proof fn sample_rates_are_read(n: u64, text: String)
    ensures
        sample_rate_of(Json::Unsigned(n)) == Some(n),
        text@ == decimal(n as nat) ==> sample_rate_of(Json::Text(text)) == Some(n),
{
    parse_undoes_decimal(n as nat, u64::MAX as int);
}

/// Whether the first stream of a type stands here.
pub open spec fn first_of_its_type(streams: Seq<Json>, at: int, kind: Seq<char>) -> bool {
    &&& 0 <= at < streams.len()
    &&& streams[at].has_text("codec_type"@, kind)
    &&& forall|i: int| 0 <= i < at ==> !(#[trigger] streams[i]).has_text("codec_type"@, kind)
}

/// The places of a type are those of its streams, all of them, and in order.
pub proof fn places_are_those_of_the_type(streams: Seq<Json>, kind: Seq<char>)
    ensures
        ({
            let p = places_of_type(streams, kind);
            &&& forall|k: int|
                0 <= k < p.len() ==> 0 <= #[trigger] p[k] < streams.len()
                    && streams[p[k]].has_text("codec_type"@, kind)
            &&& forall|j: int, k: int| 0 <= j < k < p.len() ==> #[trigger] p[j] < #[trigger] p[k]
            &&& forall|i: int|
                0 <= i < streams.len() && (#[trigger] streams[i]).has_text("codec_type"@, kind)
                    ==> p.contains(i)
        }),
    decreases streams.len(),
{
    if streams.len() > 0 {
        let front = streams.drop_last();
        places_are_those_of_the_type(front, kind);
        let (p, q) = (places_of_type(streams, kind), places_of_type(front, kind));
        assert forall|k: int| 0 <= k < p.len() implies 0 <= #[trigger] p[k] < streams.len()
            && streams[p[k]].has_text("codec_type"@, kind) by {
            if k < q.len() {
                assert(p[k] == q[k]);
                assert(front[q[k]] == streams[q[k]]);
            }
        }
        assert forall|j: int, k: int| 0 <= j < k < p.len() implies #[trigger] p[j] < #[trigger] p[k] by {
            assert(p[j] == q[j]);
            if k < q.len() {
                assert(p[k] == q[k]);
            }
        }
        assert forall|i: int|
            0 <= i < streams.len() && (#[trigger] streams[i]).has_text(
                "codec_type"@,
                kind,
            ) implies p.contains(i) by {
            if i < front.len() {
                assert(front[i] == streams[i]);
                assert(q.contains(i));
                let k = choose|k: int| 0 <= k < q.len() && q[k] == i;
                assert(p[k] == i);
            } else {
                assert(p[p.len() - 1] == i);
            }
        }
    }
}

proof fn lemma_first_place(streams: Seq<Json>, at: int, kind: Seq<char>)
    requires
        first_of_its_type(streams, at, kind),
    ensures
        places_of_type(streams, kind).len() > 0,
        places_of_type(streams, kind)[0] == at,
{
    places_are_those_of_the_type(streams, kind);
    let p = places_of_type(streams, kind);
    assert(p.contains(at));
    let k = choose|k: int| 0 <= k < p.len() && p[k] == at;
    if k > 0 {
        assert(p[0] < p[k]);
        assert(streams[p[0]].has_text("codec_type"@, kind));
    }
}

/// What the engine reports matches the streams of a probe exactly when each of these agrees: the
/// codec, the width and the height of its video with those of the first video stream, and the codec,
/// the sample rate and the channels of its first audio track with those of the first audio stream.
pub proof fn match_is_with_the_streams(
    snapshot: Json,
    streams: Seq<Json>,
    s: Seq<StreamSummary>,
    v: int,
    a: int,
)
    requires
        summarize_all(s, streams, media_places(streams)),
        first_of_its_type(streams, v, "video"@),
        first_of_its_type(streams, a, "audio"@),
    ensures
        mismatch(snapshot, s) is None <==> {
            let input = snapshot.field_or_null("input"@);
            let seen = input.field_or_null("video"@);
            match input.list_field("audioTracks"@) {
                Some(tracks) => {
                    &&& tracks.len() > 0
                    &&& equal_json(
                        seen.field_or_null("codec"@),
                        streams[v].field_or_null("codec_name"@),
                    )
                    &&& equal_json(seen.field_or_null("width"@), streams[v].field_or_null("width"@))
                    &&& equal_json(
                        seen.field_or_null("height"@),
                        streams[v].field_or_null("height"@),
                    )
                    &&& equal_json(
                        tracks[0].field_or_null("codec"@),
                        streams[a].field_or_null("codec_name"@),
                    )
                    &&& tracks[0].u64_field("sampleRate"@) == sample_rate_of(
                        streams[a].field_or_null("sample_rate"@),
                    )
                    &&& equal_json(
                        tracks[0].field_or_null("channels"@),
                        streams[a].field_or_null("channels"@),
                    )
                },
                None => false,
            }
        },
{
    let (pa, pv) = (places_of_type(streams, "audio"@), places_of_type(streams, "video"@));
    let places = media_places(streams);
    lemma_first_place(streams, v, "video"@);
    lemma_first_place(streams, a, "audio"@);
    places_are_those_of_the_type(streams, "audio"@);
    places_are_those_of_the_type(streams, "video"@);
    reveal_strlit("video");
    reveal_strlit("audio");
    assert("video"@[0] == 'v' && "audio"@[0] == 'a');
    let n = pa.len() as int;
    assert(places[0] == pa[0] && places[n] == pv[0]);
    assert forall|k: int| 0 <= k < n implies !((#[trigger] s[k]) is Video) by {
        assert(places[k] == pa[k]);
        assert(summarizes(s[k], streams[places[k]]));
        assert(streams[pa[k]].has_text("codec_type"@, "audio"@));
    }
    assert(summarizes(s[0], streams[a]));
    assert(summarizes(s[n], streams[v]));
    assert(stands_first(s, 0, false));
    assert(stands_first(s, n, true));
    match_is_field_by_field(snapshot, s, n, 0);
    let input = snapshot.field_or_null("input"@);
    let seen = input.field_or_null("video"@);
    if let (
        StreamSummary::Video { codec, width, height },
        StreamSummary::Audio { codec: audio_codec, sample_rate, channels },
    ) = (s[n], s[0]) {
        lemma_equal_to_the_same(
            seen.field_or_null("codec"@),
            codec,
            streams[v].field_or_null("codec_name"@),
        );
        lemma_equal_to_the_same(
            seen.field_or_null("width"@),
            width,
            streams[v].field_or_null("width"@),
        );
        lemma_equal_to_the_same(
            seen.field_or_null("height"@),
            height,
            streams[v].field_or_null("height"@),
        );
        if let Some(tracks) = input.list_field("audioTracks"@) {
            lemma_equal_to_the_same(
                tracks[0].field_or_null("codec"@),
                audio_codec,
                streams[a].field_or_null("codec_name"@),
            );
            lemma_equal_to_the_same(
                tracks[0].field_or_null("channels"@),
                channels,
                streams[a].field_or_null("channels"@),
            );
        }
    }
}

proof fn lemma_equal_to_the_same(x: Json, a: Json, b: Json)
    requires
        same_json(a, b),
    ensures
        equal_json(x, a) == equal_json(x, b),
{
    if equal_json(x, a) {
        lemma_equal_then_same(x, a, b);
    }
    if equal_json(x, b) {
        lemma_same_symmetric(a, b);
        lemma_equal_then_same(x, b, a);
    }
}

/// Streams are as they should be exactly when one is video, at least one is audio, and every type
/// that is told is one of the two.
pub proof fn media_are_one_video_and_some_audio(streams: Seq<Json>)
    ensures
        other_types(streams).len() == 0 <==> forall|i: int|
            0 <= i < streams.len() ==> {
                let kind = (#[trigger] streams[i]).text_field("codec_type"@);
                kind is None || kind == Some("video"@) || kind == Some("audio"@)
            },
        media_only(streams) ==> exists|i: int|
            0 <= i < streams.len() && (#[trigger] streams[i]).has_text("codec_type"@, "video"@),
        media_only(streams) ==> exists|i: int|
            0 <= i < streams.len() && (#[trigger] streams[i]).has_text("codec_type"@, "audio"@),
        media_only(streams) ==> forall|i: int, j: int|
            0 <= i < j < streams.len() && (#[trigger] streams[i]).has_text("codec_type"@, "video"@)
                ==> !(#[trigger] streams[j]).has_text("codec_type"@, "video"@),
{
    lemma_other_types(streams);
    places_are_those_of_the_type(streams, "video"@);
    places_are_those_of_the_type(streams, "audio"@);
    if media_only(streams) {
        let (pa, pv) = (places_of_type(streams, "audio"@), places_of_type(streams, "video"@));
        assert(streams[pa[0]].has_text("codec_type"@, "audio"@));
        assert(streams[pv[0]].has_text("codec_type"@, "video"@));
        assert forall|i: int, j: int|
            0 <= i < j < streams.len() && (#[trigger] streams[i]).has_text(
                "codec_type"@,
                "video"@,
            ) implies !(#[trigger] streams[j]).has_text("codec_type"@, "video"@) by {
            assert(pv.contains(i));
            if streams[j].has_text("codec_type"@, "video"@) {
                assert(pv.contains(j));
            }
        }
    }
}

proof fn lemma_other_types(streams: Seq<Json>)
    ensures
        other_types(streams).len() == 0 <==> forall|i: int|
            0 <= i < streams.len() ==> {
                let kind = (#[trigger] streams[i]).text_field("codec_type"@);
                kind is None || kind == Some("video"@) || kind == Some("audio"@)
            },
    decreases streams.len(),
{
    if streams.len() > 0 {
        let front = streams.drop_last();
        lemma_other_types(front);
        assert forall|i: int| 0 <= i < front.len() implies #[trigger] front[i] == streams[i] by {}
        if other_types(streams).len() == 0 {
            assert forall|i: int| 0 <= i < streams.len() implies {
                let kind = (#[trigger] streams[i]).text_field("codec_type"@);
                kind is None || kind == Some("video"@) || kind == Some("audio"@)
            } by {
                if i < front.len() {
                    assert(front[i] == streams[i]);
                }
            }
        } else {
            if other_types(front).len() > 0 {
                let i = choose|i: int|
                    0 <= i < front.len() && !({
                        let kind = (#[trigger] front[i]).text_field("codec_type"@);
                        kind is None || kind == Some("video"@) || kind == Some("audio"@)
                    });
                assert(streams[i] == front[i]);
            } else {
                assert(streams[streams.len() - 1] == streams.last());
            }
        }
    }
}

/// Packets that all are shown when they are decoded hold no B-frames.
pub proof fn no_reordering_no_bframes(packets: Seq<PacketTimes>)
    requires
        forall|i: int|
            0 <= i < packets.len() ==> (#[trigger] packets[i]).pts == packets[i].dts,
    ensures
        reordered_packets(packets) == 0,
    decreases packets.len(),
{
    if packets.len() > 0 {
        let front = packets.drop_last();
        assert forall|i: int| 0 <= i < front.len() implies (#[trigger] front[i]).pts
            == front[i].dts by {
            assert(front[i] == packets[i]);
        }
        no_reordering_no_bframes(front);
        assert(packets[packets.len() - 1].pts == packets[packets.len() - 1].dts);
    }
}

/// No more packets are counted than there are, and no more B-frames than timed packets.
pub proof fn counts_are_bounded(packets: Seq<PacketTimes>)
    ensures
        reordered_packets(packets) <= timed_packets(packets) <= packets.len(),
    decreases packets.len(),
{
    if packets.len() > 0 {
        counts_are_bounded(packets.drop_last());
    }
}

} // verus!
