//! A sink for HLS uploads: where an upload is kept, and whether what came is complete.

use vstd::prelude::*;
use vstd::string::*;

use crate::json::{json_in, parse_json, Json};
use crate::number::is_digits;
use crate::text::{
    after, before, chars_of, comes_first, contains, contains_text, cut_comes_at_the_first, ends,
    lemma_without_leading, lines, lines_of, precedes, precedes_is_total, precedes_is_transitive,
    replace_char, replaced, same_text, split, split_once, split_text, starts, strip_prefix,
    strip_suffix, text_option, texts, trim, trim_leading, trimmed, unbroken_text_is_one_piece,
    without_leading,
};

verus! {

// ── Where an upload is kept ──────────────────────────────────────────────────

/// The value of the first pair that has a name and an equals sign.
pub open spec fn first_value(pairs: Seq<Seq<char>>, name: Seq<char>) -> Option<Seq<char>>
    decreases pairs.len(),
{
    if pairs.len() == 0 {
        None
    } else if after(pairs[0], '=') is Some && before(pairs[0], '=') == name {
        after(pairs[0], '=')
    } else {
        first_value(pairs.skip(1), name)
    }
}

/// The name of the file that a request is for: the `file` of its query, else its path.
pub open spec fn requested_file(path: Seq<char>, query: Option<Seq<char>>) -> Option<Seq<char>> {
    let named = match query {
        Some(q) => first_value(split(q, '&'), "file"@),
        None => None,
    };
    match named {
        Some(name) => Some(name),
        None => if without_leading(path, '/').len() == 0 {
            None
        } else {
            Some(without_leading(path, '/'))
        },
    }
}

fn find_value(pairs: &Vec<String>, name: &str) -> (r: Option<String>)
    ensures
        text_option(r) == first_value(texts(pairs@), name@),
{
    let ghost all = texts(pairs@);
    let mut i: usize = 0;
    assert(all.skip(0) =~= all);
    while i < pairs.len()
        invariant
            i <= pairs@.len(),
            all == texts(pairs@),
            first_value(all, name@) == first_value(all.skip(i as int), name@),
        decreases pairs@.len() - i,
    {
        assert(all.skip(i as int)[0] == pairs@[i as int]@);
        assert(all.skip(i as int).skip(1) =~= all.skip(i + 1));
        let (key, value) = split_once(pairs[i].as_str(), '=');
        if let Some(v) = value {
            if same_text(key.as_str(), name) {
                return Some(v);
            }
        }
        i += 1;
    }
    None
}

/// The name of the file that a request is for.
pub fn hls_put_sink_file_name(path: &str, query: Option<&str>) -> (r: Option<String>)
    ensures
        text_option(r) == requested_file(path@, crate::text::str_option(query)),
{
    if let Some(q) = query {
        if let Some(name) = find_value(&split_text(q, '&'), "file") {
            return Some(name);
        }
    }
    let rest: String = trim_leading(path, '/');
    if rest.as_str().is_empty() {
        None
    } else {
        Some(rest)
    }
}

/// Whether one of the parts of a path leads out of its directory.
pub open spec fn leads_out(parts: Seq<Seq<char>>) -> bool {
    exists|i: int| 0 <= i < parts.len() && #[trigger] parts[i] == ".."@
}

/// The file, under the directory of the sink, that a request is kept in; `None` where the request
/// is refused.
pub open spec fn kept_file(path: Seq<char>, query: Option<Seq<char>>) -> Option<Seq<char>> {
    let asked = match requested_file(path, query) {
        Some(name) => name,
        None => "index.m3u8"@,
    };
    let name = without_leading(replaced(asked, '\\', '/'), '/');
    if name.len() == 0 || leads_out(split(name, '/')) {
        None
    } else {
        Some(name)
    }
}

fn any_leads_out(parts: &Vec<String>) -> (r: bool)
    ensures
        r == leads_out(texts(parts@)),
{
    let mut i: usize = 0;
    while i < parts.len()
        invariant
            i <= parts@.len(),
            forall|k: int| 0 <= k < i ==> (#[trigger] texts(parts@)[k]) != ".."@,
        decreases parts@.len() - i,
    {
        assert(texts(parts@)[i as int] == parts@[i as int]@);
        if same_text(parts[i].as_str(), "..") {
            return true;
        }
        i += 1;
    }
    false
}

/// The file, under the directory of the sink, that a request is kept in; `None` where the request
/// is refused.
pub fn hls_put_sink_target(path: &str, query: Option<&str>) -> (r: Option<String>)
    ensures
        text_option(r) == kept_file(path@, crate::text::str_option(query)),
{
    let asked: String = match hls_put_sink_file_name(path, query) {
        Some(name) => name,
        None => "index.m3u8".to_string(),
    };
    let slashed: String = replace_char(asked.as_str(), '\\', '/');
    let name: String = trim_leading(slashed.as_str(), '/');
    if name.as_str().is_empty() || any_leads_out(&split_text(name.as_str(), '/')) {
        None
    } else {
        Some(name)
    }
}

// ── Whether what came is complete ────────────────────────────────────────────

/// Whether a name is that of a segment: the prefix, a number, and `.ts`.
pub open spec fn is_segment(file: Seq<char>, prefix: Seq<char>) -> bool {
    starts(file, prefix) && ends(file.skip(prefix.len() as int), ".ts"@) && is_digits(
        file.skip(prefix.len() as int).take(file.len() - prefix.len() - ".ts"@.len()),
    )
}

fn all_digits(s: &str) -> (r: bool)
    ensures
        r == is_digits(s@),
{
    let v: Vec<char> = chars_of(s);
    if v.len() == 0 {
        return false;
    }
    let mut i: usize = 0;
    while i < v.len()
        invariant
            i <= v@.len(),
            v@ == s@,
            forall|k: int| 0 <= k < i ==> crate::number::is_digit(#[trigger] s@[k]),
        decreases v@.len() - i,
    {
        let c: char = v[i];
        if !('0' <= c && c <= '9') {
            assert(!crate::number::is_digit(s@[i as int]));
            return false;
        }
        i += 1;
    }
    true
}

/// Whether a name is that of a segment.
pub fn is_segment_file(file: &str, prefix: &str) -> (r: bool)
    ensures
        r == is_segment(file@, prefix@),
{
    match strip_prefix(file, prefix) {
        Some(rest) => match strip_suffix(rest.as_str(), ".ts") {
            Some(digits) => all_digits(digits.as_str()),
            None => false,
        },
        None => false,
    }
}

/// A file of the sink's directory.
#[derive(Debug, Clone)]
pub struct SinkFile {
    pub name: String,
    /// It holds something.
    pub nonempty: bool,
}

/// Whether a file is a segment that holds something.
pub open spec fn is_full_segment(f: SinkFile) -> bool {
    is_segment(f.name@, "seg"@) && f.nonempty
}

/// The first segment of the directory in the order of names; files that hold nothing do not count.
pub fn first_segment_in(files: &Vec<SinkFile>) -> (r: Option<usize>)
    ensures
        match r {
            Some(i) => i < files@.len() && is_full_segment(files@[i as int]) && forall|k: int|
                0 <= k < files@.len() && is_full_segment(#[trigger] files@[k]) ==> precedes(
                    files@[i as int].name@,
                    files@[k].name@,
                ),
            None => forall|k: int|
                0 <= k < files@.len() ==> !is_full_segment(#[trigger] files@[k]),
        },
{
    let mut best: Option<usize> = None;
    let mut i: usize = 0;
    while i < files.len()
        invariant
            i <= files@.len(),
            best matches Some(b) ==> b < i && is_full_segment(files@[b as int]) && forall|k: int|
                0 <= k < i && is_full_segment(#[trigger] files@[k]) ==> precedes(
                    files@[b as int].name@,
                    files@[k].name@,
                ),
            best is None ==> forall|k: int|
                0 <= k < i ==> !is_full_segment(#[trigger] files@[k]),
        decreases files@.len() - i,
    {
        if is_segment_file(files[i].name.as_str(), "seg") && files[i].nonempty {
            let replace: bool = match best {
                Some(b) => !comes_first(files[b].name.as_str(), files[i].name.as_str()),
                None => true,
            };
            proof {
                if let Some(b) = best {
                    let (x, y) = (files@[b as int].name@, files@[i as int].name@);
                    precedes_is_total(x, y);
                    if replace {
                        assert forall|k: int|
                            0 <= k < i + 1 && is_full_segment(#[trigger] files@[k]) implies precedes(
                            y,
                            files@[k].name@,
                        ) by {
                            if k < i {
                                precedes_is_transitive(y, x, files@[k].name@);
                            } else {
                                precedes_is_total(y, y);
                            }
                        }
                    }
                } else {
                    precedes_is_total(files@[i as int].name@, files@[i as int].name@);
                }
            }
            if replace {
                best = Some(i);
            }
        }
        i += 1;
    }
    best
}

/// Why a playlist is not complete.
pub open spec fn playlist_fault(playlist: Seq<char>, label: Seq<char>) -> Option<Seq<char>> {
    if !contains(playlist, "#EXTM3U"@) {
        Some(label + " HLS PUT playlist missing EXTM3U header"@)
    } else if !contains(playlist, ".ts"@) {
        Some(label + " HLS PUT playlist missing segment reference"@)
    } else {
        None
    }
}

/// Whether a playlist is complete: it has its header and names a segment.
pub fn validate_hls_playlist(playlist: &str, label: &str) -> (r: Result<(), String>)
    ensures
        match r {
            Ok(_) => playlist_fault(playlist@, label@) is None,
            Err(message) => playlist_fault(playlist@, label@) == Some(message@),
        },
{
    if !contains_text(playlist, "#EXTM3U") {
        return Err(label.to_string().concat(" HLS PUT playlist missing EXTM3U header"));
    }
    if !contains_text(playlist, ".ts") {
        return Err(label.to_string().concat(" HLS PUT playlist missing segment reference"));
    }
    Ok(())
}

/// The values that lines hold; a blank line holds none. `None` where a line is not JSON.
pub open spec fn values_in(lines: Seq<Seq<char>>) -> Option<Seq<Json>>
    decreases lines.len(),
{
    if lines.len() == 0 {
        Some(Seq::empty())
    } else {
        match values_in(lines.drop_last()) {
            None => None,
            Some(front) => if trimmed(lines.last()).len() == 0 {
                Some(front)
            } else {
                match json_in(lines.last()) {
                    Some(j) => Some(front.push(j)),
                    None => None,
                }
            },
        }
    }
}

proof fn lemma_values_stay_none(lines: Seq<Seq<char>>, k: int)
    requires
        0 <= k <= lines.len(),
        values_in(lines.take(k)) is None,
    ensures
        values_in(lines) is None,
    decreases lines.len(),
{
    if k < lines.len() {
        assert(lines.drop_last().take(k) =~= lines.take(k));
        lemma_values_stay_none(lines.drop_last(), k);
    } else {
        assert(lines.take(k) =~= lines);
    }
}

/// The requests that the log of a sink holds, one on a line; `None` where a line is not JSON.
pub fn read_hls_put_requests(body: &str) -> (r: Option<Vec<Json>>)
    ensures
        match r {
            Some(v) => values_in(lines_of(body@)) == Some(v@),
            None => values_in(lines_of(body@)) is None,
        },
{
    let all: Vec<String> = lines(body);
    let ghost seq = texts(all@);
    let mut out: Vec<Json> = Vec::new();
    let mut i: usize = 0;
    assert(seq.take(0) =~= Seq::<Seq<char>>::empty());
    assert(out@ =~= Seq::<Json>::empty());
    while i < all.len()
        invariant
            i <= all@.len(),
            seq == texts(all@),
            seq == lines_of(body@),
            values_in(seq.take(i as int)) == Some(out@),
        decreases all@.len() - i,
    {
        assert(seq.take(i + 1).drop_last() =~= seq.take(i as int));
        assert(seq.take(i + 1).last() == all@[i as int]@);
        if !trim(all[i].as_str()).as_str().is_empty() {
            match parse_json(all[i].as_str()) {
                Some(j) => {
                    out.push(j);
                },
                None => {
                    proof {
                        lemma_values_stay_none(seq, i + 1);
                    }
                    return None;
                },
            }
        }
        i += 1;
    }
    assert(seq.take(seq.len() as int) =~= seq);
    Some(out)
}

/// Whether a request uploaded the playlist as what it is.
pub open spec fn is_playlist_upload(r: Json) -> bool {
    r.has_text("file"@, "out.m3u8"@) && r.has_text("contentType"@, "application/vnd.apple.mpegurl"@)
}

/// Whether a request uploaded a segment as what it is.
pub open spec fn is_segment_upload(r: Json) -> bool {
    r.text_field("file"@) matches Some(f) && is_segment(f, "seg"@) && r.has_text(
        "contentType"@,
        "video/mp2t"@,
    )
}

/// Whether both the playlist and a segment were uploaded as what they are.
pub open spec fn types_told(requests: Seq<Json>) -> bool {
    (exists|i: int| 0 <= i < requests.len() && is_playlist_upload(#[trigger] requests[i])) && (
    exists|i: int| 0 <= i < requests.len() && is_segment_upload(#[trigger] requests[i]))
}

fn playlist_upload(r: &Json) -> (b: bool)
    ensures
        b == is_playlist_upload(*r),
{
    r.text_is("file", "out.m3u8") && r.text_is("contentType", "application/vnd.apple.mpegurl")
}

fn segment_upload(r: &Json) -> (b: bool)
    ensures
        b == is_segment_upload(*r),
{
    let is_seg: bool = match r.get_text("file") {
        Some(f) => is_segment_file(f, "seg"),
        None => false,
    };
    is_seg && r.text_is("contentType", "video/mp2t")
}

/// Whether both the playlist and a segment were uploaded as what they are.
pub fn content_types_ok(requests: &Vec<Json>) -> (r: bool)
    ensures
        r == types_told(requests@),
{
    let mut playlist: bool = false;
    let mut segment: bool = false;
    let mut i: usize = 0;
    while i < requests.len()
        invariant
            i <= requests@.len(),
            playlist == (exists|k: int|
                0 <= k < i && is_playlist_upload(#[trigger] requests@[k])),
            segment == (exists|k: int| 0 <= k < i && is_segment_upload(#[trigger] requests@[k])),
        decreases requests@.len() - i,
    {
        if playlist_upload(&requests[i]) {
            playlist = true;
            assert(is_playlist_upload(requests@[i as int]));
        }
        if segment_upload(&requests[i]) {
            segment = true;
            assert(is_segment_upload(requests@[i as int]));
        }
        i += 1;
    }
    playlist && segment
}

/// Whether an upload was probed and found good: its playlist, its types, a segment that plays, and
/// bytes that were counted.
pub fn upload_probe_passed(
    playlist_ok: bool,
    types_ok: bool,
    segment_ok: bool,
    status: &Option<Json>,
) -> (r: bool)
    ensures
        r == (playlist_ok && types_ok && segment_ok && has_delivered(*status)),
        r == (playlist_ok && types_ok && segment_ok && (*status matches Some(s) && (s.u64_field(
            "bytesOut"@,
        ) matches Some(n) && n > 0))),
{
    let delivered: bool = match status {
        Some(s) => match s.get_u64("bytesOut") {
            Some(n) => n > 0,
            None => false,
        },
        None => false,
    };
    playlist_ok && types_ok && segment_ok && delivered
}

// ── Laws ─────────────────────────────────────────────────────────────────────

/// A file that is kept stays under the directory of the sink: its name is relative, and none of
/// its parts leads out.
pub proof fn kept_file_stays_inside(path: Seq<char>, query: Option<Seq<char>>)
    ensures
        kept_file(path, query) matches Some(name) ==> name.len() > 0
            && !crate::path::is_absolute_path(name) && !leads_out(split(name, '/')),
{
    let asked = match requested_file(path, query) {
        Some(name) => name,
        None => "index.m3u8"@,
    };
    lemma_without_leading(replaced(asked, '\\', '/'), '/');
}

/// A file that the query names comes before the path, and the first name counts.
pub proof fn query_names_the_file(path: Seq<char>, name: Seq<char>, rest: Seq<char>)
    requires
        !name.contains('&'),
    ensures
        requested_file(path, Some("file="@ + name)) == Some(name),
        requested_file(path, Some("file="@ + name + "&"@ + rest)) == Some(name),
{
    reveal_strlit("file=");
    reveal_strlit("file");
    reveal_strlit("&");
    assert("&"@ =~= seq!['&']);
    assert("file="@ =~= "file"@ + seq!['=']);
    let one = "file="@ + name;
    assert(!one.contains('&')) by {
        assert forall|i: int| 0 <= i < one.len() implies one[i] != '&' by {
            if i >= 5 {
                assert(one[i] == name[i - 5]);
                assert(name.contains(name[i - 5]));
            }
        }
    }
    unbroken_text_is_one_piece(one, '&');
    assert(one =~= "file"@ + seq!['='] + name);
    assert(!"file"@.contains('='));
    cut_comes_at_the_first("file"@, '=', name);
    assert(split(one, '&')[0] == one);
    lemma_first_piece(one, rest, '&');
}

proof fn lemma_first_piece(head: Seq<char>, rest: Seq<char>, sep: char)
    requires
        !head.contains(sep),
    ensures
        split(head + seq![sep] + rest, sep).len() >= 1,
        split(head + seq![sep] + rest, sep)[0] == head,
    decreases rest.len(),
{
    let s = head + seq![sep] + rest;
    if rest.len() == 0 {
        unbroken_text_is_one_piece(head, sep);
        assert(s.drop_last() =~= head);
    } else {
        assert(s.drop_last() =~= head + seq![sep] + rest.drop_last());
        lemma_first_piece(head, rest.drop_last(), sep);
        lemma_two_pieces(head, rest.drop_last(), sep);
    }
}

proof fn lemma_two_pieces(head: Seq<char>, rest: Seq<char>, sep: char)
    requires
        !head.contains(sep),
    ensures
        split(head + seq![sep] + rest, sep).len() >= 2,
    decreases rest.len(),
{
    let s = head + seq![sep] + rest;
    if rest.len() == 0 {
        unbroken_text_is_one_piece(head, sep);
        assert(s.drop_last() =~= head);
    } else {
        assert(s.drop_last() =~= head + seq![sep] + rest.drop_last());
        lemma_two_pieces(head, rest.drop_last(), sep);
    }
}

/// Without a query the path names the file, without the slash that it begins with; without either
/// it is the playlist.
pub proof fn path_names_the_file(name: Seq<char>)
    requires
        name.len() > 0,
        name[0] != '/',
        !name.contains('\\'),
    ensures
        requested_file(seq!['/'] + name, None) == Some(name),
        !leads_out(split(name, '/')) ==> kept_file(seq!['/'] + name, None) == Some(name),
        leads_out(split(name, '/')) ==> kept_file(seq!['/'] + name, None) is None,
        kept_file(seq!['/'], None) == Some("index.m3u8"@),
{
    let path = seq!['/'] + name;
    assert(path.skip(1) =~= name);
    assert(without_leading(name, '/') == name);
    assert(without_leading(path, '/') == name);
    assert(replaced(name, '\\', '/') =~= name) by {
        assert forall|i: int| 0 <= i < name.len() implies replaced(name, '\\', '/')[i]
            == name[i] by {
            assert(name.contains(name[i]));
        }
    }
    reveal_with_fuel(without_leading, 2);
    assert(seq!['/'].skip(1) =~= Seq::<char>::empty());
    reveal_strlit("index.m3u8");
    let index = "index.m3u8"@;
    assert(replaced(index, '\\', '/') =~= index);
    assert(!index.contains('/'));
    unbroken_text_is_one_piece(index, '/');
    reveal_strlit("..");
    assert(index.len() == 10 && ".."@.len() == 2);
    assert(!leads_out(split(index, '/')));
}

/// A segment is a file of the prefix, digits and `.ts`, whatever the digits.
pub proof fn segments_are_numbered(prefix: Seq<char>, digits: Seq<char>, file: Seq<char>)
    ensures
        is_digits(digits) ==> is_segment(prefix + digits + ".ts"@, prefix),
        is_segment(file, prefix) ==> exists|d: Seq<char>|
            is_digits(d) && file == #[trigger] (prefix + d + ".ts"@),
{
    reveal_strlit(".ts");
    if is_digits(digits) {
        let f = prefix + digits + ".ts"@;
        assert(f.take(prefix.len() as int) =~= prefix);
        let rest = f.skip(prefix.len() as int);
        assert(rest =~= digits + ".ts"@);
        assert(rest.skip(rest.len() - 3) =~= ".ts"@);
        assert(rest.take(f.len() - prefix.len() - 3) =~= digits);
    }
    if is_segment(file, prefix) {
        let rest = file.skip(prefix.len() as int);
        let d = rest.take(file.len() - prefix.len() - 3);
        assert(rest =~= d + ".ts"@);
        assert(file =~= prefix + d + ".ts"@);
    }
}

/// A playlist is right exactly when it has its header and names a segment; the header comes first.
pub proof fn playlists_have_a_header_and_segments(playlist: Seq<char>, label: Seq<char>)
    ensures
        playlist_fault(playlist, label) is None <==> contains(playlist, "#EXTM3U"@) && contains(
            playlist,
            ".ts"@,
        ),
        !contains(playlist, "#EXTM3U"@) ==> playlist_fault(playlist, label) == Some(
            label + " HLS PUT playlist missing EXTM3U header"@,
        ),
        contains(playlist, "#EXTM3U"@) && !contains(playlist, ".ts"@) ==> playlist_fault(
            playlist,
            label,
        ) == Some(label + " HLS PUT playlist missing segment reference"@),
{
}

/// The requests are those of the lines, in order; a blank line is passed over, and one that is not
/// JSON spoils all.
pub proof fn requests_are_read_line_by_line(lines: Seq<Seq<char>>, line: Seq<char>)
    ensures
        trimmed(line).len() == 0 ==> values_in(lines.push(line)) == values_in(lines),
        trimmed(line).len() > 0 && json_in(line) is None ==> values_in(lines.push(line)) is None,
        trimmed(line).len() > 0 && json_in(line) is Some && values_in(lines) is Some ==> values_in(
            lines.push(line),
        ) == Some(values_in(lines)->0.push(json_in(line)->0)),
        values_in(lines) is None ==> values_in(lines.push(line)) is None,
{
    assert(lines.push(line).drop_last() =~= lines);
}

/// The types of the uploads are told where a playlist came as one, and a segment as one.
pub proof fn uploads_tell_their_types(requests: Seq<Json>)
    ensures
        types_told(requests) <==> (exists|i: int|
            0 <= i < requests.len() && (#[trigger] requests[i]).text_field("file"@) == Some(
                "out.m3u8"@,
            ) && requests[i].text_field("contentType"@) == Some("application/vnd.apple.mpegurl"@))
            && (exists|i: int|
            0 <= i < requests.len() && (#[trigger] requests[i]).text_field("file"@) is Some
                && is_segment(requests[i].text_field("file"@)->0, "seg"@)
                && requests[i].text_field("contentType"@) == Some("video/mp2t"@)),
{
    if exists|i: int|
        0 <= i < requests.len() && (#[trigger] requests[i]).text_field("file"@) == Some(
            "out.m3u8"@,
        ) && requests[i].text_field("contentType"@) == Some("application/vnd.apple.mpegurl"@) {
        let i = choose|i: int|
            0 <= i < requests.len() && (#[trigger] requests[i]).text_field("file"@) == Some(
                "out.m3u8"@,
            ) && requests[i].text_field("contentType"@) == Some("application/vnd.apple.mpegurl"@);
        assert(is_playlist_upload(requests[i]));
    }
    if exists|i: int|
        0 <= i < requests.len() && (#[trigger] requests[i]).text_field("file"@) is Some
            && is_segment(requests[i].text_field("file"@)->0, "seg"@) && requests[i].text_field(
            "contentType"@,
        ) == Some("video/mp2t"@) {
        let i = choose|i: int|
            0 <= i < requests.len() && (#[trigger] requests[i]).text_field("file"@) is Some
                && is_segment(requests[i].text_field("file"@)->0, "seg"@)
                && requests[i].text_field("contentType"@) == Some("video/mp2t"@);
        assert(is_segment_upload(requests[i]));
    }
}

/// Whether an output is known and has sent something.
pub open spec fn has_delivered(status: Option<Json>) -> bool {
    match status {
        Some(s) => match s.u64_field("bytesOut"@) {
            Some(n) => n > 0,
            None => false,
        },
        None => false,
    }
}

/// An output has delivered exactly when it tells of bytes that it sent.
pub proof fn deliveries_are_told_in_bytes(s: Json)
    ensures
        !has_delivered(None),
        has_delivered(Some(s)) <==> s.u64_field("bytesOut"@) is Some && s.u64_field("bytesOut"@)->0
            >= 1,
{
}

} // verus!
