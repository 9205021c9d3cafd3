//! Domain-level audio-routing grammar shared by planner and media backends.
//!
//! An encoding text is a video preset, or an audio operation, or both with a `+` between them.
//! What it asks of the audio is an [`AudioRouting`]; how that is done is up to a backend.

use vstd::prelude::*;

use crate::number::{
    decimal, decimal_reads_back, is_digit, parse_undoes_decimal, parse_usize, parsed,
};
use crate::text::{
    after, cut_comes_at_the_first, joined, separator_opens_a_piece, split, split_once, split_text,
    split_undoes_join, starts, starts_with, strip_prefix, texts, unbroken_text_is_one_piece,
};

verus! {

#[derive(Debug, Clone, PartialEq, Eq)]
pub enum AudioRouting {
    /// Pass all audio streams through unchanged.
    Passthrough,
    /// Select specific audio tracks by 0-based index.
    SelectTracks(Vec<usize>),
    /// Remap stereo channels of a track.
    Remap { left: usize, right: usize, track: usize },
    /// Downmix a specific audio track to stereo.
    Downmix(usize),
}

/// What an [`AudioRouting`] says.
pub enum AudioRoutingModel {
    Passthrough,
    SelectTracks(Seq<usize>),
    Remap { left: usize, right: usize, track: usize },
    Downmix(usize),
}

impl View for AudioRouting {
    type V = AudioRoutingModel;

    open spec fn view(&self) -> AudioRoutingModel {
        match self {
            AudioRouting::Passthrough => AudioRoutingModel::Passthrough,
            AudioRouting::SelectTracks(tracks) => AudioRoutingModel::SelectTracks(tracks@),
            AudioRouting::Remap { left, right, track } => AudioRoutingModel::Remap {
                left: *left,
                right: *right,
                track: *track,
            },
            AudioRouting::Downmix(track) => AudioRoutingModel::Downmix(*track),
        }
    }
}

/// Whether `s` begins as an audio operation does.
pub open spec fn is_audio_operation(s: Seq<char>) -> bool {
    starts(s, "remap:"@) || starts(s, "atrack:"@) || starts(s, "downmix:"@)
}

/// The part of an encoding that speaks of audio: what follows the first `+`, or all of an
/// encoding that is an audio operation itself.
pub open spec fn audio_part(encoding: Seq<char>) -> Option<Seq<char>> {
    match after(encoding, '+') {
        Some(rest) => Some(rest),
        None => if is_audio_operation(encoding) {
            Some(encoding)
        } else {
            None
        },
    }
}

/// The index that `s` writes.
pub open spec fn index_in(s: Seq<char>) -> Option<usize> {
    match parsed(s, usize::MAX as int) {
        Some(n) => Some(n as usize),
        None => None,
    }
}

/// The index that `s` writes, or `default` where it writes none.
pub open spec fn index_or(s: Seq<char>, default: usize) -> usize {
    match index_in(s) {
        Some(n) => n,
        None => default,
    }
}

/// The indices among the pieces, in order; a piece that writes none is passed over.
pub open spec fn indices(pieces: Seq<Seq<char>>) -> Seq<usize>
    decreases pieces.len(),
{
    if pieces.len() == 0 {
        Seq::empty()
    } else {
        match index_in(pieces.last()) {
            Some(n) => indices(pieces.drop_last()).push(n),
            None => indices(pieces.drop_last()),
        }
    }
}

/// The routing that one audio operation asks for.
pub open spec fn operation_routing(part: Seq<char>) -> AudioRoutingModel {
    if starts(part, "remap:"@) {
        let pieces = split(part.skip("remap:"@.len() as int), ':');
        if pieces.len() >= 2 {
            AudioRoutingModel::Remap {
                left: index_or(pieces[0], 0),
                right: index_or(pieces[1], 1),
                track: if pieces.len() >= 3 {
                    index_or(pieces[2], 0)
                } else {
                    0
                },
            }
        } else {
            AudioRoutingModel::Passthrough
        }
    } else if starts(part, "atrack:"@) {
        let tracks = indices(split(part.skip("atrack:"@.len() as int), ','));
        if tracks.len() > 0 {
            AudioRoutingModel::SelectTracks(tracks)
        } else {
            AudioRoutingModel::Passthrough
        }
    } else if starts(part, "downmix:"@) {
        match index_in(part.skip("downmix:"@.len() as int)) {
            Some(track) => AudioRoutingModel::Downmix(track),
            None => AudioRoutingModel::Passthrough,
        }
    } else {
        AudioRoutingModel::Passthrough
    }
}

/// The routing that an encoding asks for.
pub open spec fn routing(encoding: Seq<char>) -> AudioRoutingModel {
    match audio_part(encoding) {
        Some(part) => operation_routing(part),
        None => AudioRoutingModel::Passthrough,
    }
}

/// Whether `value` begins as an audio operation does.
pub fn looks_like_audio_operation(value: &str) -> (r: bool)
    ensures
        r == is_audio_operation(value@),
{
    starts_with(value, "atrack:") || starts_with(value, "remap:") || starts_with(value, "downmix:")
}

fn index_or_default(s: &str, default: usize) -> (r: usize)
    ensures
        r == index_or(s@, default),
{
    match parse_usize(s) {
        Some(n) => n,
        None => default,
    }
}

fn indices_of(pieces: &Vec<String>) -> (r: Vec<usize>)
    ensures
        r@ == indices(texts(pieces@)),
{
    let mut out: Vec<usize> = Vec::new();
    let mut i: usize = 0;
    assert(texts(pieces@).take(0) =~= Seq::<Seq<char>>::empty());
    while i < pieces.len()
        invariant
            i <= pieces@.len(),
            out@ == indices(texts(pieces@).take(i as int)),
        decreases pieces@.len() - i,
    {
        let ghost all = texts(pieces@);
        assert(all.take(i + 1).drop_last() =~= all.take(i as int));
        assert(all.take(i + 1).last() == pieces@[i as int]@);
        if let Some(n) = parse_usize(pieces[i].as_str()) {
            out.push(n);
        }
        i += 1;
    }
    assert(texts(pieces@).take(pieces@.len() as int) =~= texts(pieces@));
    out
}

fn parse_operation(part: &str) -> (r: AudioRouting)
    ensures
        r@ == operation_routing(part@),
{
    if let Some(rest) = strip_prefix(part, "remap:") {
        let pieces: Vec<String> = split_text(rest.as_str(), ':');
        assert(texts(pieces@).len() == pieces@.len());
        if pieces.len() >= 2 {
            assert(texts(pieces@)[0] == pieces@[0]@ && texts(pieces@)[1] == pieces@[1]@);
            let left: usize = index_or_default(pieces[0].as_str(), 0);
            let right: usize = index_or_default(pieces[1].as_str(), 1);
            let track: usize = if pieces.len() >= 3 {
                assert(texts(pieces@)[2] == pieces@[2]@);
                index_or_default(pieces[2].as_str(), 0)
            } else {
                0
            };
            return AudioRouting::Remap { left, right, track };
        }
    } else if let Some(rest) = strip_prefix(part, "atrack:") {
        let tracks: Vec<usize> = indices_of(&split_text(rest.as_str(), ','));
        if !tracks.is_empty() {
            return AudioRouting::SelectTracks(tracks);
        }
    } else if let Some(rest) = strip_prefix(part, "downmix:") {
        if let Some(track) = parse_usize(rest.as_str()) {
            return AudioRouting::Downmix(track);
        }
    }
    AudioRouting::Passthrough
}

/// The audio routing that `encoding` asks for.
pub fn parse_audio_routing(encoding: &str) -> (r: AudioRouting)
    ensures
        r@ == routing(encoding@),
{
    let (_head, rest) = split_once(encoding, '+');
    match rest {
        Some(part) => parse_operation(part.as_str()),
        None => if looks_like_audio_operation(encoding) {
            parse_operation(encoding)
        } else {
            AudioRouting::Passthrough
        },
    }
}

// ── Laws ─────────────────────────────────────────────────────────────────────

/// Numbers in decimal.
pub open spec fn decimals(numbers: Seq<usize>) -> Seq<Seq<char>> {
    Seq::new(numbers.len(), |i: int| decimal(numbers[i] as nat))
}

proof fn lemma_decimal_is_plain(n: nat, c: char)
    requires
        !is_digit(c),
    ensures
        !decimal(n).contains(c),
{
    decimal_reads_back(n);
    let s = decimal(n);
    assert forall|i: int| 0 <= i < s.len() implies s[i] != c by {
        assert(is_digit(s[i]));
    }
}

proof fn lemma_plain_together(a: Seq<char>, b: Seq<char>, c: char)
    requires
        !a.contains(c),
        !b.contains(c),
    ensures
        !(a + b).contains(c),
{
    assert forall|i: int| 0 <= i < (a + b).len() implies (a + b)[i] != c by {
        if i < a.len() {
            assert(a.contains(a[i]));
        } else {
            assert(b.contains(b[i - a.len()]));
        }
    }
}

proof fn lemma_operation(name: Seq<char>, rest: Seq<char>)
    requires
        name == "remap:"@ || name == "atrack:"@ || name == "downmix:"@,
    ensures
        starts(name + rest, name),
        (name + rest).skip(name.len() as int) == rest,
        name == "atrack:"@ || name == "downmix:"@ ==> !starts(name + rest, "remap:"@),
        name == "downmix:"@ ==> !starts(name + rest, "atrack:"@),
{
    reveal_strlit("remap:");
    reveal_strlit("atrack:");
    reveal_strlit("downmix:");
    let s = name + rest;
    assert(s.take(name.len() as int) =~= name);
    assert(s.skip(name.len() as int) =~= rest);
    if starts(s, "remap:"@) {
        assert(s.take("remap:"@.len() as int)[0] == "remap:"@[0]);
    }
    if starts(s, "atrack:"@) {
        assert(s.take("atrack:"@.len() as int)[0] == "atrack:"@[0]);
    }
}

/// An encoding that is an audio operation alone routes as the operation, and so does one that has a
/// video preset before it.
pub proof fn operation_routes_with_and_without_a_preset(preset: Seq<char>, operation: Seq<char>)
    requires
        !preset.contains('+'),
    ensures
        routing(preset + "+"@ + operation) == operation_routing(operation),
        is_audio_operation(operation) && !operation.contains('+') ==> routing(operation)
            == operation_routing(operation),
        !is_audio_operation(preset) ==> routing(preset) == AudioRoutingModel::Passthrough,
{
    reveal_strlit("+");
    assert("+"@ =~= seq!['+']);
    cut_comes_at_the_first(preset, '+', operation);
    if !operation.contains('+') {
        cut_comes_at_the_first(operation, '+', Seq::empty());
    }
}

/// `remap:<left>:<right>` takes the left and the right channel from those of the first track, and a
/// third number names another track; with a video preset before it or without.
pub proof fn remap_names_left_right_and_track(
    preset: Seq<char>,
    left: usize,
    right: usize,
    track: usize,
)
    requires
        !preset.contains('+'),
    ensures
        ({
            let two = "remap:"@ + decimal(left as nat) + ":"@ + decimal(right as nat);
            let three = two + ":"@ + decimal(track as nat);
            &&& routing(two) == (AudioRoutingModel::Remap { left, right, track: 0 })
            &&& routing(preset + "+"@ + two) == (AudioRoutingModel::Remap { left, right, track: 0 })
            &&& routing(three) == (AudioRoutingModel::Remap { left, right, track })
            &&& routing(preset + "+"@ + three) == (AudioRoutingModel::Remap { left, right, track })
        }),
{
    reveal_strlit(":");
    assert(":"@ =~= seq![':']);
    let (l, r, t) = (decimal(left as nat), decimal(right as nat), decimal(track as nat));
    lemma_decimal_is_plain(left as nat, ':');
    lemma_decimal_is_plain(right as nat, ':');
    lemma_decimal_is_plain(track as nat, ':');
    parse_undoes_decimal(left as nat, usize::MAX as int);
    parse_undoes_decimal(right as nat, usize::MAX as int);
    parse_undoes_decimal(track as nat, usize::MAX as int);
    let two_rest = l + ":"@ + r;
    let three_rest = two_rest + ":"@ + t;
    unbroken_text_is_one_piece(l, ':');
    separator_opens_a_piece(l, r, ':');
    separator_opens_a_piece(two_rest, t, ':');
    assert(split(two_rest, ':') =~= seq![l, r]);
    assert(split(three_rest, ':') =~= seq![l, r, t]);
    let two = "remap:"@ + l + ":"@ + r;
    let three = two + ":"@ + t;
    assert(two =~= "remap:"@ + two_rest);
    assert(three =~= "remap:"@ + three_rest);
    lemma_operation("remap:"@, two_rest);
    lemma_operation("remap:"@, three_rest);
    lemma_decimal_is_plain(left as nat, '+');
    lemma_decimal_is_plain(right as nat, '+');
    lemma_decimal_is_plain(track as nat, '+');
    reveal_strlit("remap:");
    lemma_plain_together("remap:"@, l, '+');
    lemma_plain_together("remap:"@ + l, ":"@, '+');
    lemma_plain_together("remap:"@ + l + ":"@, r, '+');
    lemma_plain_together(two, ":"@, '+');
    lemma_plain_together(two + ":"@, t, '+');
    operation_routes_with_and_without_a_preset(preset, two);
    operation_routes_with_and_without_a_preset(preset, three);
}

/// A piece of `remap` that writes no number leaves the channel where it is: the left one on the left,
/// the right one on the right; and fewer than two pieces ask for nothing.
pub proof fn remap_without_numbers_keeps_the_channels(left: Seq<char>, right: Seq<char>)
    requires
        !left.contains(':'),
        !right.contains(':'),
        parsed(left, usize::MAX as int) is None,
        parsed(right, usize::MAX as int) is None,
    ensures
        operation_routing("remap:"@ + left + ":"@ + right) == (AudioRoutingModel::Remap {
            left: 0,
            right: 1,
            track: 0,
        }),
        operation_routing("remap:"@ + left) == AudioRoutingModel::Passthrough,
{
    reveal_strlit(":");
    assert(":"@ =~= seq![':']);
    unbroken_text_is_one_piece(left, ':');
    separator_opens_a_piece(left, right, ':');
    assert(split(left + ":"@ + right, ':') =~= seq![left, right]);
    assert("remap:"@ + left + ":"@ + right =~= "remap:"@ + (left + ":"@ + right));
    lemma_operation("remap:"@, left + ":"@ + right);
    lemma_operation("remap:"@, left);
}

/// What begins with the name of an operation is one, whatever follows; what is one begins with such
/// a name.
pub proof fn operations_are_known_by_their_names(s: Seq<char>, rest: Seq<char>)
    ensures
        is_audio_operation("remap:"@ + rest),
        is_audio_operation("atrack:"@ + rest),
        is_audio_operation("downmix:"@ + rest),
        is_audio_operation(s) ==> s == "remap:"@ + s.skip(6) || s == "atrack:"@ + s.skip(7) || s
            == "downmix:"@ + s.skip(8),
{
    reveal_strlit("remap:");
    reveal_strlit("atrack:");
    reveal_strlit("downmix:");
    lemma_operation("remap:"@, rest);
    lemma_operation("atrack:"@, rest);
    lemma_operation("downmix:"@, rest);
    if starts(s, "remap:"@) {
        assert(s =~= "remap:"@ + s.skip(6));
    } else if starts(s, "atrack:"@) {
        assert(s =~= "atrack:"@ + s.skip(7));
    } else if starts(s, "downmix:"@) {
        assert(s =~= "downmix:"@ + s.skip(8));
    }
}

proof fn lemma_list_is_plain(tracks: Seq<usize>, c: char)
    requires
        !is_digit(c),
        c != ',',
    ensures
        !joined(decimals(tracks), ","@).contains(c),
    decreases tracks.len(),
{
    reveal_strlit(",");
    let pieces = decimals(tracks);
    if tracks.len() == 1 {
        lemma_decimal_is_plain(tracks[0] as nat, c);
    } else if tracks.len() > 1 {
        let front = tracks.drop_last();
        lemma_list_is_plain(front, c);
        assert(pieces.drop_last() =~= decimals(front));
        lemma_decimal_is_plain(tracks.last() as nat, c);
        lemma_plain_together(joined(pieces.drop_last(), ","@), ","@, c);
        lemma_plain_together(joined(pieces.drop_last(), ","@) + ","@, pieces.last(), c);
    }
}

/// `atrack:` with numbers and commas between them selects the tracks of these numbers, in their
/// order; with a video preset before it or without.
pub proof fn atrack_selects_the_listed_tracks(preset: Seq<char>, tracks: Seq<usize>)
    requires
        !preset.contains('+'),
        tracks.len() > 0,
    ensures
        ({
            let operation = "atrack:"@ + joined(decimals(tracks), ","@);
            &&& routing(operation) == AudioRoutingModel::SelectTracks(tracks)
            &&& routing(preset + "+"@ + operation) == AudioRoutingModel::SelectTracks(tracks)
        }),
{
    let operation = "atrack:"@ + joined(decimals(tracks), ","@);
    reveal_strlit("atrack:");
    lemma_list_is_plain(tracks, '+');
    lemma_plain_together("atrack:"@, joined(decimals(tracks), ","@), '+');
    operations_are_known_by_their_names(operation, joined(decimals(tracks), ","@));
    operation_routes_with_and_without_a_preset(preset, operation);
    reveal_strlit(",");
    assert(","@ =~= seq![',']);
    let pieces = decimals(tracks);
    assert forall|i: int| 0 <= i < pieces.len() implies !(#[trigger] pieces[i]).contains(',') by {
        lemma_decimal_is_plain(tracks[i] as nat, ',');
    }
    split_undoes_join(pieces, ',');
    lemma_operation("atrack:"@, joined(pieces, ","@));
    lemma_indices_of_decimals(tracks);
}

proof fn lemma_indices_of_decimals(tracks: Seq<usize>)
    ensures
        indices(decimals(tracks)) == tracks,
    decreases tracks.len(),
{
    let pieces = decimals(tracks);
    if tracks.len() > 0 {
        let front = tracks.drop_last();
        lemma_indices_of_decimals(front);
        assert(pieces.drop_last() =~= decimals(front));
        parse_undoes_decimal(tracks.last() as nat, usize::MAX as int);
        assert(pieces.last() == decimal(tracks.last() as nat));
        assert(front.push(tracks.last()) =~= tracks);
    } else {
        assert(indices(pieces) =~= tracks);
    }
}

/// `downmix:` with a number mixes the track of that number down, with a video preset before it or
/// without; what is no number asks for nothing.
pub proof fn downmix_names_the_track(preset: Seq<char>, track: usize, other: Seq<char>)
    requires
        !preset.contains('+'),
    ensures
        ({
            let operation = "downmix:"@ + decimal(track as nat);
            &&& routing(operation) == AudioRoutingModel::Downmix(track)
            &&& routing(preset + "+"@ + operation) == AudioRoutingModel::Downmix(track)
        }),
        parsed(other, usize::MAX as int) is None ==> routing(preset + "+"@ + ("downmix:"@ + other))
            == AudioRoutingModel::Passthrough,
{
    let operation = "downmix:"@ + decimal(track as nat);
    reveal_strlit("downmix:");
    lemma_decimal_is_plain(track as nat, '+');
    lemma_plain_together("downmix:"@, decimal(track as nat), '+');
    operations_are_known_by_their_names(operation, decimal(track as nat));
    operation_routes_with_and_without_a_preset(preset, operation);
    operation_routes_with_and_without_a_preset(preset, "downmix:"@ + other);
    parse_undoes_decimal(track as nat, usize::MAX as int);
    lemma_operation("downmix:"@, decimal(track as nat));
    lemma_operation("downmix:"@, other);
}

/// Every selected track is one that the encoding lists, and there is at least one.
pub proof fn selected_tracks_are_listed(encoding: Seq<char>)
    ensures
        routing(encoding) matches AudioRoutingModel::SelectTracks(tracks) ==> tracks.len() > 0
            && forall|i: int|
            0 <= i < tracks.len() ==> exists|k: int|
                0 <= k < split(audio_part(encoding)->0.skip("atrack:"@.len() as int), ',').len()
                    && index_in(
                    #[trigger] split(audio_part(encoding)->0.skip("atrack:"@.len() as int), ',')[k],
                ) == Some(#[trigger] tracks[i]),
{
    if let AudioRoutingModel::SelectTracks(tracks) = routing(encoding) {
        let pieces = split(audio_part(encoding)->0.skip("atrack:"@.len() as int), ',');
        lemma_indices_are_listed(pieces);
    }
}

proof fn lemma_indices_are_listed(pieces: Seq<Seq<char>>)
    ensures
        forall|i: int|
            0 <= i < indices(pieces).len() ==> exists|k: int|
                0 <= k < pieces.len() && index_in(#[trigger] pieces[k]) == Some(
                    #[trigger] indices(pieces)[i],
                ),
    decreases pieces.len(),
{
    if pieces.len() > 0 {
        let front = pieces.drop_last();
        lemma_indices_are_listed(front);
        assert forall|i: int| 0 <= i < indices(pieces).len() implies exists|k: int|
            0 <= k < pieces.len() && index_in(#[trigger] pieces[k]) == Some(
                #[trigger] indices(pieces)[i],
            ) by {
            if i < indices(front).len() {
                assert(indices(pieces)[i] == indices(front)[i]);
                let k = choose|k: int|
                    0 <= k < front.len() && index_in(#[trigger] front[k]) == Some(
                        indices(front)[i],
                    );
                assert(front[k] == pieces[k]);
            } else {
                assert(index_in(pieces[pieces.len() - 1]) == Some(indices(pieces)[i]));
            }
        }
    }
}

} // verus!
