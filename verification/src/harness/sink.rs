//! An RTMP sink that counts what it receives: frames, keyframes, codecs, and whether time runs
//! forward.

use vstd::prelude::*;
use vstd::string::*;

use crate::json::Json;
use crate::record::{is_record, Cell, Record};
use crate::text::same_text;

verus! {

#[derive(Debug, Clone, Copy, PartialEq, Eq, Structural)]
pub enum Media {
    Video,
    Audio,
}

#[derive(Debug, Clone, Copy, PartialEq, Eq, Structural)]
pub struct SinkPacket {
    pub media: Media,
    pub timestamp_ms: u64,
}

/// What a sink has received.
#[derive(Debug)]
pub struct GeneralizedSinkMetrics {
    pub connections: u64,
    pub publishing: u64,
    pub messages: u64,
    pub bytes: u64,
    pub video_count: u64,
    pub audio_count: u64,
    pub keyframe_count: u64,
    pub packets: Vec<SinkPacket>,
    pub video_codec: Option<&'static str>,
    pub audio_codec: Option<&'static str>,
}

// ── Tags ─────────────────────────────────────────────────────────────────────

/// The first byte of a message; zero where it is empty.
pub open spec fn tag_of(data: Seq<u8>) -> u8 {
    if data.len() == 0 {
        0
    } else {
        data[0]
    }
}

/// Whether a video message is a keyframe: frame type 1, in the older or the extended header.
pub open spec fn is_keyframe(tag: u8) -> bool {
    tag / 16 == 1 || tag == 0x90
}

/// Whether four bytes of a message are the given ones.
pub open spec fn has_fourcc(data: Seq<u8>, a: u8, b: u8, c: u8, d: u8) -> bool {
    data[1] == a && data[2] == b && data[3] == c && data[4] == d
}

/// The codec of a video message. The extended header, whose top bit is set, names it by four
/// characters; the older one by a number.
pub open spec fn video_codec_of(data: Seq<u8>) -> Option<Seq<char>> {
    let tag = tag_of(data);
    if tag >= 0x80 {
        if data.len() < 5 {
            None
        } else if has_fourcc(data, 0x68, 0x76, 0x63, 0x31) {
            Some("hevc"@)
        } else if has_fourcc(data, 0x61, 0x76, 0x30, 0x31) {
            Some("av1"@)
        } else if has_fourcc(data, 0x76, 0x70, 0x30, 0x39) {
            Some("vp9"@)
        } else {
            Some("h264"@)
        }
    } else if tag % 16 == 7 {
        Some("h264"@)
    } else if tag % 16 == 12 {
        Some("hevc"@)
    } else {
        None
    }
}

/// The codec of an audio message, by the number in its header.
pub open spec fn audio_codec_of(data: Seq<u8>) -> Option<Seq<char>> {
    if data.len() == 0 {
        None
    } else if data[0] / 16 == 10 {
        Some("aac"@)
    } else if data[0] / 16 == 2 {
        Some("mp3"@)
    } else {
        None
    }
}

/// The characters of an optional name.
pub open spec fn name_option(name: Option<&'static str>) -> Option<Seq<char>> {
    match name {
        Some(s) => Some(s@),
        None => None,
    }
}

/// The codec of a video message.
pub fn detect_video_codec(data: &[u8]) -> (r: Option<&'static str>)
    ensures
        name_option(r) == video_codec_of(data@),
{
    let tag: u8 = if data.len() == 0 {
        0
    } else {
        data[0]
    };
    if tag >= 0x80 {
        if data.len() < 5 {
            return None;
        }
        let (a, b, c, d): (u8, u8, u8, u8) = (data[1], data[2], data[3], data[4]);
        if a == 0x68 && b == 0x76 && c == 0x63 && d == 0x31 {
            Some("hevc")
        } else if a == 0x61 && b == 0x76 && c == 0x30 && d == 0x31 {
            Some("av1")
        } else if a == 0x76 && b == 0x70 && c == 0x30 && d == 0x39 {
            Some("vp9")
        } else {
            Some("h264")
        }
    } else if tag % 16 == 7 {
        Some("h264")
    } else if tag % 16 == 12 {
        Some("hevc")
    } else {
        None
    }
}

/// The codec of an audio message.
pub fn detect_audio_codec(data: &[u8]) -> (r: Option<&'static str>)
    ensures
        name_option(r) == audio_codec_of(data@),
{
    if data.len() == 0 {
        None
    } else if data[0] / 16 == 10 {
        Some("aac")
    } else if data[0] / 16 == 2 {
        Some("mp3")
    } else {
        None
    }
}

// ── Counting ─────────────────────────────────────────────────────────────────

/// Whether the times of the video packets never go back.
pub open spec fn video_in_order(packets: Seq<SinkPacket>) -> bool {
    forall|i: int, j: int|
        0 <= i < j < packets.len() && (#[trigger] packets[i]).media == Media::Video && (
        #[trigger] packets[j]).media == Media::Video ==> packets[i].timestamp_ms
            <= packets[j].timestamp_ms
}

/// The codec that is known once a message has come: the first one that was found stays.
pub open spec fn known_codec(known: Option<Seq<char>>, found: Option<Seq<char>>) -> Option<
    Seq<char>,
> {
    match known {
        Some(c) => Some(c),
        None => found,
    }
}

/// What the record of what a sink has received says.
pub open spec fn sink_cells(m: GeneralizedSinkMetrics) -> Seq<(Seq<char>, Cell)> {
    Seq::empty().push(
        ("connections"@, Cell::Whole(m.connections as int)),
    ).push(
        ("publishing"@, Cell::Whole(m.publishing as int)),
    ).push(
        ("messages"@, Cell::Whole(m.messages as int)),
    ).push(
        ("bytes"@, Cell::Whole(m.bytes as int)),
    ).push(
        ("videoCount"@, Cell::Whole(m.video_count as int)),
    ).push(
        ("audioCount"@, Cell::Whole(m.audio_count as int)),
    ).push(
        ("keyframeCount"@, Cell::Whole(m.keyframe_count as int)),
    ).push(
        ("dtsMonotone"@, Cell::Flag(video_in_order(m.packets@))),
    )
}

impl GeneralizedSinkMetrics {
    pub fn new() -> (r: Self)
        ensures
            r.connections == 0,
            r.publishing == 0,
            r.messages == 0,
            r.bytes == 0,
            r.video_count == 0,
            r.audio_count == 0,
            r.keyframe_count == 0,
            r.packets@ == Seq::<SinkPacket>::empty(),
            r.video_codec is None,
            r.audio_codec is None,
    {
        GeneralizedSinkMetrics {
            connections: 0,
            publishing: 0,
            messages: 0,
            bytes: 0,
            video_count: 0,
            audio_count: 0,
            keyframe_count: 0,
            packets: Vec::new(),
            video_codec: None,
            audio_codec: None,
        }
    }

    /// Takes in a connection. The counter wraps around.
    pub fn receive_connection(&mut self)
        ensures
            *final(self) == (GeneralizedSinkMetrics {
                connections: old(self).connections.wrapping_add(1),
                ..*old(self)
            }),
    {
        self.connections = self.connections.wrapping_add(1);
    }

    /// Takes in a publisher. The counter wraps around.
    pub fn receive_publisher(&mut self)
        ensures
            *final(self) == (GeneralizedSinkMetrics {
                publishing: old(self).publishing.wrapping_add(1),
                ..*old(self)
            }),
    {
        self.publishing = self.publishing.wrapping_add(1);
    }

    /// Takes in a video message. The counters wrap around.
    pub fn receive_video(&mut self, data: &[u8], timestamp: u32)
        ensures
            final(self).connections == old(self).connections,
            final(self).publishing == old(self).publishing,
            final(self).messages == old(self).messages.wrapping_add(1),
            final(self).bytes == old(self).bytes.wrapping_add(data@.len() as u64),
            final(self).video_count == old(self).video_count.wrapping_add(1),
            final(self).audio_count == old(self).audio_count,
            final(self).keyframe_count == (if is_keyframe(tag_of(data@)) {
                old(self).keyframe_count.wrapping_add(1)
            } else {
                old(self).keyframe_count
            }),
            final(self).packets@ == old(self).packets@.push(
                SinkPacket { media: Media::Video, timestamp_ms: timestamp as u64 },
            ),
            name_option(final(self).video_codec) == known_codec(
                name_option(old(self).video_codec),
                video_codec_of(data@),
            ),
            final(self).audio_codec == old(self).audio_codec,
    {
        self.messages = self.messages.wrapping_add(1);
        self.bytes = self.bytes.wrapping_add(data.len() as u64);
        self.video_count = self.video_count.wrapping_add(1);
        let tag: u8 = if data.len() == 0 {
            0
        } else {
            data[0]
        };
        if tag / 16 == 1 || tag == 0x90 {
            self.keyframe_count = self.keyframe_count.wrapping_add(1);
        }
        if self.video_codec.is_none() {
            self.video_codec = detect_video_codec(data);
        }
        self.packets.push(SinkPacket { media: Media::Video, timestamp_ms: timestamp as u64 });
    }

    /// Takes in an audio message. The counters wrap around.
    pub fn receive_audio(&mut self, data: &[u8], timestamp: u32)
        ensures
            final(self).connections == old(self).connections,
            final(self).publishing == old(self).publishing,
            final(self).messages == old(self).messages.wrapping_add(1),
            final(self).bytes == old(self).bytes.wrapping_add(data@.len() as u64),
            final(self).video_count == old(self).video_count,
            final(self).audio_count == old(self).audio_count.wrapping_add(1),
            final(self).keyframe_count == old(self).keyframe_count,
            final(self).packets@ == old(self).packets@.push(
                SinkPacket { media: Media::Audio, timestamp_ms: timestamp as u64 },
            ),
            final(self).video_codec == old(self).video_codec,
            name_option(final(self).audio_codec) == known_codec(
                name_option(old(self).audio_codec),
                audio_codec_of(data@),
            ),
    {
        self.messages = self.messages.wrapping_add(1);
        self.bytes = self.bytes.wrapping_add(data.len() as u64);
        self.audio_count = self.audio_count.wrapping_add(1);
        if self.audio_codec.is_none() {
            self.audio_codec = detect_audio_codec(data);
        }
        self.packets.push(SinkPacket { media: Media::Audio, timestamp_ms: timestamp as u64 });
    }

    /// The record of what has been received.
    pub fn summary(&self) -> (r: Json)
        ensures
            is_record(r, sink_cells(*self)),
    {
        let mut f: Record = Record::new();
        f.add_whole("connections", self.connections);
        f.add_whole("publishing", self.publishing);
        f.add_whole("messages", self.messages);
        f.add_whole("bytes", self.bytes);
        f.add_whole("videoCount", self.video_count);
        f.add_whole("audioCount", self.audio_count);
        f.add_whole("keyframeCount", self.keyframe_count);
        f.add_flag("dtsMonotone", self.dts_monotone());
        f.finish()
    }

    /// Whether the times of the video packets never go back.
    pub fn dts_monotone(&self) -> (r: bool)
        ensures
            r == video_in_order(self.packets@),
    {
        let mut last: Option<u64> = None;
        let ghost mut at: int = -1;
        let ghost p = self.packets@;
        let mut i: usize = 0;
        while i < self.packets.len()
            invariant
                i <= p.len(),
                p == self.packets@,
                last is None ==> forall|k: int|
                    0 <= k < i ==> (#[trigger] p[k]).media == Media::Audio,
                last matches Some(t) ==> 0 <= at < i && p[at].media == Media::Video
                    && p[at].timestamp_ms == t && forall|k: int|
                    0 <= k < i && (#[trigger] p[k]).media == Media::Video ==> p[k].timestamp_ms
                        <= t,
                forall|j: int, k: int|
                    0 <= j < k < i && (#[trigger] p[j]).media == Media::Video && (
                    #[trigger] p[k]).media == Media::Video ==> p[j].timestamp_ms
                        <= p[k].timestamp_ms,
            decreases p.len() - i,
        {
            let packet: SinkPacket = self.packets[i];
            let is_video: bool = match packet.media {
                Media::Video => true,
                Media::Audio => false,
            };
            if is_video {
                if let Some(previous) = last {
                    if packet.timestamp_ms < previous {
                        assert(p[at].media == Media::Video && p[i as int].media == Media::Video);
                        return false;
                    }
                }
                last = Some(packet.timestamp_ms);
                proof {
                    at = i as int;
                }
            }
            i += 1;
        }
        true
    }
}

// ── Verdicts ─────────────────────────────────────────────────────────────────

/// Whether a sink received enough video, some audio, a keyframe, and times that run forward.
pub open spec fn probe_right(m: GeneralizedSinkMetrics, min_video: u64) -> bool {
    m.video_count >= min_video && m.audio_count > 0 && m.keyframe_count > 0 && video_in_order(
        m.packets@,
    )
}

/// Whether a sink received H.264 with AAC, enough of it, and in order.
pub open spec fn transcode_right(m: GeneralizedSinkMetrics) -> bool {
    m.video_count >= 30 && m.audio_count > 0 && video_in_order(m.packets@) && name_option(
        m.video_codec,
    ) == Some("h264"@) && name_option(m.audio_codec) == Some("aac"@)
}

/// Whether a probe of an output passed: enough video, some audio, a keyframe, and time that runs
/// forward.
pub fn sink_probe_passed(m: &GeneralizedSinkMetrics, min_video: u64) -> (r: bool)
    ensures
        r == probe_right(*m, min_video),
        r == (m.video_count >= min_video && m.audio_count > 0 && m.keyframe_count > 0
            && video_in_order(m.packets@)),
{
    m.video_count >= min_video && m.audio_count > 0 && m.keyframe_count > 0 && m.dts_monotone()
}

/// Whether an H.265 source came out as H.264 with AAC.
pub fn transcode_to_h264_passed(m: &GeneralizedSinkMetrics) -> (r: bool)
    ensures
        r == transcode_right(*m),
        r == (m.video_count >= 30 && m.audio_count > 0 && video_in_order(m.packets@) && name_option(
            m.video_codec,
        ) == Some("h264"@) && name_option(m.audio_codec) == Some("aac"@)),
{
    let is_h264: bool = match m.video_codec {
        Some(c) => same_text(c, "h264"),
        None => false,
    };
    let is_aac: bool = match m.audio_codec {
        Some(c) => same_text(c, "aac"),
        None => false,
    };
    m.video_count >= 30 && m.audio_count > 0 && m.dts_monotone() && is_h264 && is_aac
}

/// Why B-frames did not come through as they should.
#[derive(Debug, Clone, Copy, PartialEq, Eq, Structural)]
pub enum BframeFault {
    TooFewPackets,
    NoReordering,
    NotMonotone,
}

/// Why B-frames did not come through, if they did not.
pub open spec fn fault_of_bframes(
    packets: usize,
    bframes: usize,
    probe_monotone: bool,
    sink_monotone: bool,
) -> Option<BframeFault> {
    if packets < 30 {
        Some(BframeFault::TooFewPackets)
    } else if bframes == 0 {
        Some(BframeFault::NoReordering)
    } else if !probe_monotone || !sink_monotone {
        Some(BframeFault::NotMonotone)
    } else {
        None
    }
}

/// Why B-frames did not come through, if they did not: too few packets, none of them shown later
/// than decoded, or times that go back in the probe or at the sink.
pub fn bframe_fault(
    packets: usize,
    bframes: usize,
    probe_monotone: bool,
    sink_monotone: bool,
) -> (r: Option<BframeFault>)
    ensures
        r == fault_of_bframes(packets, bframes, probe_monotone, sink_monotone),
        r == (if packets < 30 {
            Some(BframeFault::TooFewPackets)
        } else if bframes == 0 {
            Some(BframeFault::NoReordering)
        } else if !probe_monotone || !sink_monotone {
            Some(BframeFault::NotMonotone)
        } else {
            None
        }),
{
    if packets < 30 {
        Some(BframeFault::TooFewPackets)
    } else if bframes == 0 {
        Some(BframeFault::NoReordering)
    } else if !probe_monotone || !sink_monotone {
        Some(BframeFault::NotMonotone)
    } else {
        None
    }
}

/// What is said of a fault with B-frames.
pub fn bframe_message(fault: BframeFault, packets: usize) -> (r: String)
    ensures
        r@ == (match fault {
            BframeFault::TooFewPackets => "expected at least 30 video packets, got "@
                + crate::number::decimal(packets as nat),
            BframeFault::NoReordering =>
                "RTMP egress did not expose any packets with PTS > DTS"@,
            BframeFault::NotMonotone => "RTMP egress DTS values are not monotone"@,
        }),
{
    match fault {
        BframeFault::TooFewPackets => "expected at least 30 video packets, got ".to_string().concat(
            crate::number::decimal_text(packets as u64).as_str(),
        ),
        BframeFault::NoReordering =>
            "RTMP egress did not expose any packets with PTS > DTS".to_string(),
        BframeFault::NotMonotone => "RTMP egress DTS values are not monotone".to_string(),
    }
}

// ── Laws ─────────────────────────────────────────────────────────────────────

/// Audio never puts the video out of order, and a packet that is not earlier than all before it
/// keeps it in order.
pub proof fn order_is_kept(packets: Seq<SinkPacket>, p: SinkPacket)
    requires
        video_in_order(packets),
        p.media == Media::Audio || forall|i: int|
            0 <= i < packets.len() && (#[trigger] packets[i]).media == Media::Video
                ==> packets[i].timestamp_ms <= p.timestamp_ms,
    ensures
        video_in_order(packets.push(p)),
{
    let all = packets.push(p);
    assert forall|i: int, j: int|
        0 <= i < j < all.len() && (#[trigger] all[i]).media == Media::Video && (
        #[trigger] all[j]).media == Media::Video implies all[i].timestamp_ms
        <= all[j].timestamp_ms by {
        assert(all[i] == packets[i]);
        if j < packets.len() {
            assert(all[j] == packets[j]);
        }
    }
}

/// The codec that was found first stays.
pub proof fn first_codec_stays(known: Seq<char>, found: Option<Seq<char>>)
    ensures
        known_codec(Some(known), found) == Some(known),
{
}

/// A keyframe is marked by frame type 1 in the upper half of the first byte, or by the first byte of
/// an extended header of that type.
pub proof fn keyframes_are_of_type_one(tag: u8)
    ensures
        is_keyframe(tag) <==> (0x10 <= tag && tag <= 0x1f) || tag == 0x90,
{
}

/// The codecs of messages: by the lower half of the first byte in an older header, by four characters
/// in an extended one, and by the upper half of the first byte for audio.
pub proof fn codecs_are_told_by_headers(data: Seq<u8>)
    ensures
        data.len() > 0 && data[0] < 0x80 ==> (video_codec_of(data) == Some("h264"@) <==> data[0] % 16
            == 7) && (data[0] % 16 == 12 ==> video_codec_of(data) == Some("hevc"@)) && (data[0] % 16
            != 7 && data[0] % 16 != 12 ==> video_codec_of(data) is None),
        data.len() >= 5 && data[0] >= 0x80 && data[1] == 'h' as u8 && data[2] == 'v' as u8 && data[3]
            == 'c' as u8 && data[4] == '1' as u8 ==> video_codec_of(data) == Some("hevc"@),
        data.len() >= 5 && data[0] >= 0x80 && data[1] == 'a' as u8 && data[2] == 'v' as u8 && data[3]
            == 'c' as u8 && data[4] == '1' as u8 ==> video_codec_of(data) == Some("h264"@),
        data.len() >= 5 && data[0] >= 0x80 && data[1] == 'a' as u8 && data[2] == 'v' as u8 && data[3]
            == '0' as u8 && data[4] == '1' as u8 ==> video_codec_of(data) == Some("av1"@),
        data.len() >= 5 && data[0] >= 0x80 && data[1] == 'v' as u8 && data[2] == 'p' as u8 && data[3]
            == '0' as u8 && data[4] == '9' as u8 ==> video_codec_of(data) == Some("vp9"@),
        data.len() < 5 && data.len() > 0 && data[0] >= 0x80 ==> video_codec_of(data) is None,
        data.len() == 0 ==> video_codec_of(data) is None && audio_codec_of(data) is None,
        data.len() > 0 && 0xa0 <= data[0] <= 0xaf ==> audio_codec_of(data) == Some("aac"@),
        data.len() > 0 && 0x20 <= data[0] <= 0x2f ==> audio_codec_of(data) == Some("mp3"@),
        data.len() > 0 && !(0xa0 <= data[0] <= 0xaf) && !(0x20 <= data[0] <= 0x2f) ==> audio_codec_of(
            data,
        ) is None,
{
    reveal_strlit("h264");
    reveal_strlit("hevc");
    assert("h264"@[1] == '2' && "hevc"@[1] == 'e');
}

/// Video is out of order exactly when some video packet is earlier than a video packet before it.
pub proof fn one_early_packet_breaks_the_order(packets: Seq<SinkPacket>, i: int, j: int)
    requires
        0 <= i < j < packets.len(),
        packets[i].media == Media::Video,
        packets[j].media == Media::Video,
        packets[j].timestamp_ms < packets[i].timestamp_ms,
    ensures
        !video_in_order(packets),
{
}

/// A sink that counts no audio, no keyframe, too little video, or video out of order is not right;
/// and what is H.265, or not AAC, did not come out as H.264.
pub proof fn wrong_sinks_are_not_passed(m: GeneralizedSinkMetrics, min_video: u64)
    ensures
        m.audio_count == 0 || m.keyframe_count == 0 || m.video_count < min_video || !video_in_order(
            m.packets@,
        ) ==> !probe_right(m, min_video),
        m.audio_count >= 1 && m.keyframe_count >= 1 && m.video_count >= min_video && video_in_order(
            m.packets@,
        ) ==> probe_right(m, min_video),
        m.video_codec is None || m.video_codec->0@ != "h264"@ || m.audio_codec is None
            || m.audio_codec->0@ != "aac"@ || m.video_count <= 29 || m.audio_count == 0
            || !video_in_order(m.packets@) ==> !transcode_right(m),
        m.video_codec is Some && m.video_codec->0@ == "h264"@ && m.audio_codec is Some
            && m.audio_codec->0@ == "aac"@ && m.video_count >= 30 && m.audio_count >= 1
            && video_in_order(m.packets@) ==> transcode_right(m),
{
}

/// B-frames came through exactly when thirty packets did, one of them shown later than decoded, and
/// time ran forward on both sides; the first of these that is wrong is told.
pub proof fn bframes_come_through_in_full(
    packets: usize,
    bframes: usize,
    probe_monotone: bool,
    sink_monotone: bool,
)
    ensures
        fault_of_bframes(packets, bframes, probe_monotone, sink_monotone) is None <==> packets >= 30
            && bframes >= 1 && probe_monotone && sink_monotone,
        packets <= 29 <==> fault_of_bframes(packets, bframes, probe_monotone, sink_monotone) == Some(
            BframeFault::TooFewPackets,
        ),
        packets >= 30 && bframes == 0 <==> fault_of_bframes(
            packets,
            bframes,
            probe_monotone,
            sink_monotone,
        ) == Some(BframeFault::NoReordering),
{
}

} // verus!
