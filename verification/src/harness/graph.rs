//! The graph of a pipeline, as the server shows it, and what a probe shows of a picture.

use vstd::prelude::*;
use vstd::string::*;

use crate::json::Json;
use crate::number::{signed_decimal, signed_decimal_text};
use crate::text::{chars_of, text_option};

verus! {

// ── Nodes ────────────────────────────────────────────────────────────────────

/// The nodes of a graph.
pub open spec fn nodes_of(graph: Json) -> Seq<Json> {
    match graph.list_field("nodes"@) {
        Some(nodes) => nodes,
        None => Seq::empty(),
    }
}

/// The readers that a node lists.
pub open spec fn readers_of_node(node: Json) -> Seq<Json> {
    match node.field_or_null("details"@).list_field("readers"@) {
        Some(readers) => readers,
        None => Seq::empty(),
    }
}

/// How many readers of ring buffers the nodes list.
pub open spec fn reader_count(nodes: Seq<Json>) -> nat
    decreases nodes.len(),
{
    if nodes.len() == 0 {
        0
    } else {
        reader_count(nodes.drop_last()) + if nodes.last().has_text("type"@, "ring_buffer"@) {
            readers_of_node(nodes.last()).len()
        } else {
            0
        }
    }
}

/// Whether a number is more than zero. A number that is not whole is written with a digit other
/// than zero before its exponent, and without a minus sign.
pub open spec fn is_positive(value: Json) -> bool {
    match value {
        Json::Unsigned(n) => n > 0,
        Json::Real(text) => text@.len() > 0 && text@[0] != '-' && has_nonzero_digit(text@),
        _ => false,
    }
}

/// Whether a text has a digit other than zero before the first `e`.
pub open spec fn has_nonzero_digit(s: Seq<char>) -> bool
    decreases s.len(),
{
    if s.len() == 0 || s[0] == 'e' || s[0] == 'E' {
        false
    } else if '1' <= s[0] && s[0] <= '9' {
        true
    } else {
        has_nonzero_digit(s.skip(1))
    }
}

/// Whether a reader has read in bursts.
pub open spec fn bursts(reader: Json) -> bool {
    (reader.u64_field("burstCount"@) matches Some(n) && n > 0) && is_positive(
        reader.field_or_null("avgBurstSize"@),
    )
}

/// How many of the readers have read in bursts.
pub open spec fn bursting_in(readers: Seq<Json>) -> nat
    decreases readers.len(),
{
    if readers.len() == 0 {
        0
    } else {
        bursting_in(readers.drop_last()) + if bursts(readers.last()) {
            1nat
        } else {
            0nat
        }
    }
}

/// How many readers of ring buffers have read in bursts.
pub open spec fn bursting_count(nodes: Seq<Json>) -> nat
    decreases nodes.len(),
{
    if nodes.len() == 0 {
        0
    } else {
        bursting_count(nodes.drop_last()) + if nodes.last().has_text("type"@, "ring_buffer"@) {
            bursting_in(readers_of_node(nodes.last()))
        } else {
            0
        }
    }
}

fn check_nonzero_digit(s: &str) -> (r: bool)
    ensures
        r == has_nonzero_digit(s@),
{
    let v: Vec<char> = chars_of(s);
    let mut i: usize = 0;
    assert(s@.skip(0) =~= s@);
    while i < v.len()
        invariant
            v@ == s@,
            i <= v@.len(),
            has_nonzero_digit(s@) == has_nonzero_digit(s@.skip(i as int)),
        decreases v@.len() - i,
    {
        let c: char = v[i];
        assert(s@.skip(i as int)[0] == c);
        assert(s@.skip(i as int).skip(1) =~= s@.skip(i + 1));
        if c == 'e' || c == 'E' {
            return false;
        }
        if '1' <= c && c <= '9' {
            return true;
        }
        i += 1;
    }
    false
}

fn check_positive(value: &Json) -> (r: bool)
    ensures
        r == is_positive(*value),
{
    match value {
        Json::Unsigned(n) => *n > 0,
        Json::Real(text) => {
            let v: Vec<char> = chars_of(text.as_str());
            v.len() > 0 && v[0] != '-' && check_nonzero_digit(text.as_str())
        },
        _ => false,
    }
}

fn check_bursts(reader: &Json) -> (r: bool)
    ensures
        r == bursts(*reader),
{
    let counted: bool = match reader.get_u64("burstCount") {
        Some(n) => n > 0,
        None => false,
    };
    let sized: bool = match reader.get("avgBurstSize") {
        Some(size) => check_positive(size),
        None => false,
    };
    counted && sized
}

/// The readers of ring buffers in a graph: how many there are, and how many have read in bursts.
#[derive(Debug, Clone, Copy, PartialEq, Eq, Structural)]
pub struct BurstReport {
    pub readers: u64,
    pub bursting: u64,
}

proof fn lemma_readers_grow(nodes: Seq<Json>, k: int)
    requires
        0 <= k <= nodes.len(),
    ensures
        reader_count(nodes.take(k)) <= reader_count(nodes),
    decreases nodes.len(),
{
    if k == nodes.len() {
        assert(nodes.take(k) =~= nodes);
    } else {
        lemma_readers_grow(nodes.drop_last(), k);
        assert(nodes.drop_last().take(k) =~= nodes.take(k));
    }
}

fn burst_counts(readers: &Vec<Json>) -> (r: u64)
    ensures
        r == bursting_in(readers@),
        r <= readers@.len(),
{
    let mut n: u64 = 0;
    let mut i: usize = 0;
    assert(readers@.take(0) =~= Seq::<Json>::empty());
    while i < readers.len()
        invariant
            i <= readers@.len(),
            n <= i,
            n == bursting_in(readers@.take(i as int)),
        decreases readers@.len() - i,
    {
        assert(readers@.take(i + 1).drop_last() =~= readers@.take(i as int));
        if check_bursts(&readers[i]) {
            n += 1;
        }
        i += 1;
    }
    assert(readers@.take(readers@.len() as int) =~= readers@);
    n
}

/// The readers of ring buffers in a graph.
pub fn graph_ring_readers(graph: &Json) -> (r: BurstReport)
    requires
        reader_count(nodes_of(*graph)) <= u64::MAX,
    ensures
        r.readers == reader_count(nodes_of(*graph)),
        r.bursting == bursting_count(nodes_of(*graph)),
        r.bursting <= r.readers,
{
    let mut readers: u64 = 0;
    let mut bursting: u64 = 0;
    if let Some(nodes) = graph.get_list("nodes") {
        let mut i: usize = 0;
        assert(nodes@.take(0) =~= Seq::<Json>::empty());
        while i < nodes.len()
            invariant
                i <= nodes@.len(),
                nodes@ == nodes_of(*graph),
                reader_count(nodes@) <= u64::MAX,
                readers == reader_count(nodes@.take(i as int)),
                bursting == bursting_count(nodes@.take(i as int)),
                bursting <= readers,
            decreases nodes@.len() - i,
        {
            proof {
                assert(nodes@.take(i + 1).drop_last() =~= nodes@.take(i as int));
                lemma_readers_grow(nodes@, i + 1);
            }
            let node: &Json = &nodes[i];
            if node.text_is("type", "ring_buffer") {
                if let Some(details) = node.get("details") {
                    if let Some(list) = details.get_list("readers") {
                        let n: u64 = burst_counts(list);
                        readers = readers + list.len() as u64;
                        bursting = bursting + n;
                    }
                }
            }
            i += 1;
        }
        assert(nodes@.take(nodes@.len() as int) =~= nodes@);
    }
    BurstReport { readers, bursting }
}

/// Whether there are readers, and all of them have read in bursts.
pub fn burst_check_passed(report: BurstReport) -> (r: bool)
    ensures
        r == all_burst(report.readers as nat, report.bursting as nat),
        r == (report.readers > 0 && report.bursting == report.readers),
{
    report.readers > 0 && report.bursting == report.readers
}

/// Whether there are readers, and all of them burst.
pub open spec fn all_burst(readers: nat, bursting: nat) -> bool {
    readers > 0 && bursting == readers
}

/// How many nodes are of a type and active.
pub open spec fn active_count(nodes: Seq<Json>, node_type: Seq<char>) -> nat
    decreases nodes.len(),
{
    if nodes.len() == 0 {
        0
    } else {
        active_count(nodes.drop_last(), node_type) + if nodes.last().has_text("type"@, node_type)
            && nodes.last().bool_field("active"@) == Some(true) {
            1nat
        } else {
            0nat
        }
    }
}

/// How many nodes of a graph are of a type and active.
pub fn graph_active_node_count(graph: &Json, node_type: &str) -> (r: usize)
    ensures
        r == active_count(nodes_of(*graph), node_type@),
{
    let mut n: usize = 0;
    if let Some(nodes) = graph.get_list("nodes") {
        let mut i: usize = 0;
        assert(nodes@.take(0) =~= Seq::<Json>::empty());
        while i < nodes.len()
            invariant
                i <= nodes@.len(),
                n <= i,
                nodes@ == nodes_of(*graph),
                n == active_count(nodes@.take(i as int), node_type@),
            decreases nodes@.len() - i,
        {
            assert(nodes@.take(i + 1).drop_last() =~= nodes@.take(i as int));
            let active: bool = match nodes[i].get_bool("active") {
                Some(b) => b,
                None => false,
            };
            if nodes[i].text_is("type", node_type) && active {
                n += 1;
            }
            i += 1;
        }
        assert(nodes@.take(nodes@.len() as int) =~= nodes@);
    }
    n
}

// ── Pictures ─────────────────────────────────────────────────────────────────

/// The whole number that a value is, where it is an `i64`.
pub open spec fn whole_of(value: Option<Json>) -> Option<int> {
    match value {
        Some(Json::Unsigned(n)) => if n <= i64::MAX {
            Some(n as int)
        } else {
            None
        },
        Some(Json::Negative(n)) => Some(n as int),
        _ => None,
    }
}

fn whole(value: Option<&Json>) -> (r: Option<i64>)
    ensures
        match r {
            Some(n) => whole_of(crate::json::pointee(value)) == Some(n as int),
            None => whole_of(crate::json::pointee(value)) is None,
        },
{
    match value {
        Some(Json::Unsigned(n)) => if *n <= i64::MAX as u64 {
            Some(*n as i64)
        } else {
            None
        },
        Some(Json::Negative(n)) => Some(*n),
        _ => None,
    }
}

/// The first video stream.
pub open spec fn first_video(streams: Seq<Json>) -> Option<Json>
    decreases streams.len(),
{
    if streams.len() == 0 {
        None
    } else if streams[0].has_text("codec_type"@, "video"@) {
        Some(streams[0])
    } else {
        first_video(streams.skip(1))
    }
}

/// The size of the picture of a probe, as width, `x` and height.
pub open spec fn dimensions_of(probe: Json) -> Option<Seq<char>> {
    match probe.list_field("streams"@) {
        Some(streams) => match first_video(streams) {
            Some(stream) => match (whole_of(stream.field("width"@)), whole_of(
                stream.field("height"@),
            )) {
                (Some(w), Some(h)) => Some(signed_decimal(w) + "x"@ + signed_decimal(h)),
                _ => None,
            },
            None => None,
        },
        None => None,
    }
}

fn find_video(streams: &Vec<Json>) -> (r: Option<&Json>)
    ensures
        crate::json::pointee(r) == first_video(streams@),
{
    let mut i: usize = 0;
    assert(streams@.skip(0) =~= streams@);
    while i < streams.len()
        invariant
            i <= streams@.len(),
            first_video(streams@) == first_video(streams@.skip(i as int)),
        decreases streams@.len() - i,
    {
        assert(streams@.skip(i as int)[0] == streams@[i as int]);
        assert(streams@.skip(i as int).skip(1) =~= streams@.skip(i + 1));
        if streams[i].text_is("codec_type", "video") {
            return Some(&streams[i]);
        }
        i += 1;
    }
    None
}

/// The size of the picture of a probe.
pub fn video_dimensions(probe: &Json) -> (r: Option<String>)
    ensures
        text_option(r) == dimensions_of(*probe),
{
    match probe.get_list("streams") {
        Some(streams) => match find_video(streams) {
            Some(stream) => match (whole(stream.get("width")), whole(stream.get("height"))) {
                (Some(w), Some(h)) => Some(
                    signed_decimal_text(w).concat("x").concat(signed_decimal_text(h).as_str()),
                ),
                _ => None,
            },
            None => None,
        },
        None => None,
    }
}

/// How many audio tracks a probe shows.
pub fn probe_audio_track_count(probe: &Json) -> (r: usize)
    ensures
        r == (match probe.list_field("streams"@) {
            Some(streams) => crate::harness::probe::type_count(streams, "audio"@) as int,
            None => 0,
        }),
{
    match probe.get_list("streams") {
        Some(streams) => crate::harness::probe::count_type(streams, "audio"),
        None => 0,
    }
}

/// Whether a probe shows both video and audio.
pub fn probe_has_both(probe: &Json) -> (r: bool)
    ensures
        r == (probe.list_field("streams"@) matches Some(streams)
            && crate::harness::probe::type_count(streams, "video"@) > 0
            && crate::harness::probe::type_count(streams, "audio"@) > 0),
{
    match probe.get_list("streams") {
        Some(streams) => crate::harness::probe::count_type(streams, "video") > 0
            && crate::harness::probe::count_type(streams, "audio") > 0,
        None => false,
    }
}

// ── Laws ─────────────────────────────────────────────────────────────────────

/// Only the readers of ring buffers are counted, and of those that burst only the ones that burst: a
/// reader does where it had bursts, and their average size is more than nothing.
pub proof fn readers_of_rings_are_counted(nodes: Seq<Json>, node: Json)
    ensures
        node.text_field("type"@) == Some("ring_buffer"@) ==> reader_count(nodes.push(node))
            == reader_count(nodes) + readers_of_node(node).len() && bursting_count(nodes.push(node))
            == bursting_count(nodes) + bursting_in(readers_of_node(node)),
        node.text_field("type"@) != Some("ring_buffer"@) ==> reader_count(nodes.push(node))
            == reader_count(nodes) && bursting_count(nodes.push(node)) == bursting_count(nodes),
{
    assert(nodes.push(node).drop_last() =~= nodes);
}

/// A reader bursts where its count of bursts and their average size are both more than zero.
pub proof fn bursts_are_counted_and_sized(readers: Seq<Json>, reader: Json)
    ensures
        bursts(reader) <==> reader.u64_field("burstCount"@) is Some && reader.u64_field(
            "burstCount"@,
        )->0 >= 1 && is_positive(reader.field_or_null("avgBurstSize"@)),
        bursting_in(readers.push(reader)) == bursting_in(readers) + (if bursts(reader) {
            1int
        } else {
            0
        }),
        bursting_in(readers) <= readers.len(),
    decreases readers.len(),
{
    assert(readers.push(reader).drop_last() =~= readers);
    if readers.len() > 0 {
        bursts_are_counted_and_sized(readers.drop_last(), reader);
    }
}

/// A whole number is more than nothing where it is not zero; another number is where it has no minus
/// sign and a digit other than zero before its exponent.
pub proof fn positive_numbers_have_a_digit(n: u64, digits: Seq<char>, rest: Seq<char>, text: String)
    requires
        forall|i: int| 0 <= i < digits.len() ==> (#[trigger] digits[i] == '0' || digits[i] == '.'),
    ensures
        is_positive(Json::Unsigned(n)) <==> n != 0,
        !is_positive(Json::Null),
        text@.len() > 0 && text@[0] == '-' ==> !is_positive(Json::Real(text)),
        forall|d: char| '1' <= d && d <= '9' ==> #[trigger] has_nonzero_digit(
            digits + seq![d] + rest,
        ),
        !has_nonzero_digit(digits),
    decreases digits.len(),
{
    if digits.len() > 0 {
        let tail = digits.skip(1);
        assert(digits[0] == '0' || digits[0] == '.');
        assert forall|i: int| 0 <= i < tail.len() implies (#[trigger] tail[i] == '0' || tail[i]
            == '.') by {
            assert(digits[i + 1] == '0' || digits[i + 1] == '.');
        }
        positive_numbers_have_a_digit(n, tail, rest, text);
        assert forall|d: char| '1' <= d && d <= '9' implies #[trigger] has_nonzero_digit(
            digits + seq![d] + rest,
        ) by {
            let s = digits + seq![d] + rest;
            assert(s.skip(1) =~= tail + seq![d] + rest);
            assert(has_nonzero_digit(tail + seq![d] + rest));
            assert(s[0] == digits[0]);
        }
    } else {
        assert forall|d: char| '1' <= d && d <= '9' implies #[trigger] has_nonzero_digit(
            digits + seq![d] + rest,
        ) by {
            assert((digits + seq![d] + rest)[0] == d);
        }
    }
}

/// A node counts where it is of the type and active.
pub proof fn active_nodes_are_counted(nodes: Seq<Json>, node: Json, node_type: Seq<char>)
    ensures
        active_count(nodes.push(node), node_type) == active_count(nodes, node_type) + (
        if node.text_field("type"@) == Some(node_type) && node.bool_field("active"@) == Some(true) {
            1int
        } else {
            0
        }),
{
    assert(nodes.push(node).drop_last() =~= nodes);
}

/// The dimensions of a probe are the width and the height of its first video stream, in that order.
pub proof fn dimensions_are_those_of_the_first_video(
    probe: Json,
    streams: Seq<Json>,
    at: int,
    width: u64,
    height: u64,
)
    requires
        probe.list_field("streams"@) == Some(streams),
        0 <= at < streams.len(),
        streams[at].text_field("codec_type"@) == Some("video"@),
        forall|i: int|
            0 <= i < at ==> (#[trigger] streams[i]).text_field("codec_type"@) != Some("video"@),
        streams[at].field("width"@) == Some(Json::Unsigned(width)),
        streams[at].field("height"@) == Some(Json::Unsigned(height)),
        width <= i64::MAX,
        height <= i64::MAX,
    ensures
        dimensions_of(probe) == Some(
            crate::number::decimal(width as nat) + "x"@ + crate::number::decimal(height as nat),
        ),
{
    lemma_first_video(streams, at);
}

proof fn lemma_first_video(streams: Seq<Json>, at: int)
    requires
        0 <= at < streams.len(),
        streams[at].text_field("codec_type"@) == Some("video"@),
        forall|i: int|
            0 <= i < at ==> (#[trigger] streams[i]).text_field("codec_type"@) != Some("video"@),
    ensures
        first_video(streams) == Some(streams[at]),
    decreases at,
{
    if at > 0 {
        assert(streams[0].text_field("codec_type"@) != Some("video"@));
        assert forall|i: int| 0 <= i < at - 1 implies (#[trigger] streams.skip(1)[i]).text_field(
            "codec_type"@,
        ) != Some("video"@) by {
            assert(streams.skip(1)[i] == streams[i + 1]);
        }
        lemma_first_video(streams.skip(1), at - 1);
    }
}

/// A graph bursts exactly when its ring buffers have a reader, and each of their readers bursts.
pub proof fn graphs_burst_with_every_reader(nodes: Seq<Json>)
    ensures
        bursting_count(nodes) <= reader_count(nodes),
        bursting_count(nodes) == reader_count(nodes) <==> forall|n: int, i: int|
            0 <= n < nodes.len() && nodes[n].text_field("type"@) == Some("ring_buffer"@) && 0 <= i
                < readers_of_node(nodes[n]).len() ==> bursts(
                #[trigger] readers_of_node(nodes[n])[i],
            ),
        all_burst(reader_count(nodes), bursting_count(nodes)) <==> reader_count(nodes) > 0
            && bursting_count(nodes) == reader_count(nodes),
    decreases nodes.len(),
{
    if nodes.len() > 0 {
        let front = nodes.drop_last();
        graphs_burst_with_every_reader(front);
        let last = nodes.last();
        let readers = readers_of_node(last);
        lemma_all_burst(readers);
        let k = nodes.len() - 1;
        assert(nodes[k] == last);
        if bursting_count(nodes) == reader_count(nodes) {
            assert forall|n: int, i: int|
                0 <= n < nodes.len() && nodes[n].text_field("type"@) == Some("ring_buffer"@) && 0
                    <= i < readers_of_node(nodes[n]).len() implies bursts(
                #[trigger] readers_of_node(nodes[n])[i],
            ) by {
                if n < front.len() {
                    assert(front[n] == nodes[n]);
                    assert(bursts(readers_of_node(front[n])[i]));
                } else {
                    assert(bursts(readers[i]));
                }
            }
        }
        if forall|n: int, i: int|
            0 <= n < nodes.len() && nodes[n].text_field("type"@) == Some("ring_buffer"@) && 0 <= i
                < readers_of_node(nodes[n]).len() ==> bursts(
                #[trigger] readers_of_node(nodes[n])[i],
            ) {
            assert forall|n: int, i: int|
                0 <= n < front.len() && front[n].text_field("type"@) == Some("ring_buffer"@) && 0
                    <= i < readers_of_node(front[n]).len() implies bursts(
                #[trigger] readers_of_node(front[n])[i],
            ) by {
                assert(front[n] == nodes[n]);
                assert(bursts(readers_of_node(nodes[n])[i]));
            }
            if last.text_field("type"@) == Some("ring_buffer"@) {
                assert forall|i: int| 0 <= i < readers.len() implies bursts(
                    #[trigger] readers[i],
                ) by {
                    assert(bursts(readers_of_node(nodes[k])[i]));
                }
            }
        }
    }
}

proof fn lemma_all_burst(readers: Seq<Json>)
    ensures
        bursting_in(readers) <= readers.len(),
        bursting_in(readers) == readers.len() <==> forall|i: int|
            0 <= i < readers.len() ==> bursts(#[trigger] readers[i]),
    decreases readers.len(),
{
    if readers.len() > 0 {
        let front = readers.drop_last();
        lemma_all_burst(front);
        if bursting_in(readers) == readers.len() {
            assert forall|i: int| 0 <= i < readers.len() implies bursts(#[trigger] readers[i]) by {
                if i < front.len() {
                    assert(bursts(front[i]));
                }
            }
        }
        if forall|i: int| 0 <= i < readers.len() ==> bursts(#[trigger] readers[i]) {
            assert forall|i: int| 0 <= i < front.len() implies bursts(#[trigger] front[i]) by {
                assert(bursts(readers[i]));
            }
            assert(bursts(readers[readers.len() - 1]));
        }
    }
}

} // verus!
