//! Text helpers: every function states its result over the characters of its arguments.

use vstd::prelude::*;
use vstd::string::*;
use vstd::utf8::*;

verus! {

/// `String::push`: the character goes to the end.
pub assume_specification[ String::push ](s: &mut String, c: char)
    ensures
        final(s)@ == old(s)@.push(c),
;

/// The characters of each text of a list.
pub open spec fn texts(v: Seq<String>) -> Seq<Seq<char>> {
    v.map_values(|s: String| s@)
}

/// The characters of an optional text.
pub open spec fn text_option(t: Option<String>) -> Option<Seq<char>> {
    match t {
        Some(s) => Some(s@),
        None => None,
    }
}

/// The characters of an optional borrowed text.
pub open spec fn str_option(t: Option<&str>) -> Option<Seq<char>> {
    match t {
        Some(s) => Some(s@),
        None => None,
    }
}

/// The characters of `s`, in order.
pub fn chars_of(s: &str) -> (r: Vec<char>)
    ensures
        r@ == s@,
{
    let mut out: Vec<char> = Vec::new();
    for c in it: s.chars()
        invariant
            out@ == it.seq().take(it.index() as int),
            it.seq() == s@,
    {
        out.push(c);
    }
    out
}

/// Whether two texts hold the same characters.
pub fn same_text(a: &str, b: &str) -> (r: bool)
    ensures
        r == (a@ == b@),
{
    let x: String = a.to_string();
    let y: String = b.to_string();
    x == y
}

/// An owned copy of an optional text.
pub fn copy_option(t: &Option<String>) -> (r: Option<String>)
    ensures
        r == *t,
{
    match t {
        Some(s) => Some(s.clone()),
        None => None,
    }
}

/// An owned copy of a list of texts.
pub fn copy_texts(v: &Vec<String>) -> (r: Vec<String>)
    ensures
        r@ == v@,
{
    let mut out: Vec<String> = Vec::new();
    let mut i: usize = 0;
    while i < v.len()
        invariant
            i <= v@.len(),
            out@ == v@.take(i as int),
        decreases v@.len() - i,
    {
        out.push(v[i].clone());
        i += 1;
    }
    assert(v@.take(v@.len() as int) =~= v@);
    out
}

/// The text made of the characters `v[from..to]`.
pub fn text_of(v: &Vec<char>, from: usize, to: usize) -> (r: String)
    requires
        from <= to <= v@.len(),
    ensures
        r@ == v@.subrange(from as int, to as int),
{
    let mut out: String = String::new();
    let mut i: usize = from;
    while i < to
        invariant
            from <= i <= to <= v@.len(),
            out@ == v@.subrange(from as int, i as int),
        decreases to - i,
    {
        out.push(v[i]);
        i += 1;
        assert(v@.subrange(from as int, i as int) =~= v@.subrange(from as int, i - 1).push(
            v@[i - 1],
        ));
    }
    out
}

// ── Searching ────────────────────────────────────────────────────────────────

/// Whether `s` begins with `p`.
pub open spec fn starts(s: Seq<char>, p: Seq<char>) -> bool {
    p.len() <= s.len() && s.take(p.len() as int) == p
}

/// Whether `s` ends with `p`.
pub open spec fn ends(s: Seq<char>, p: Seq<char>) -> bool {
    p.len() <= s.len() && s.skip(s.len() - p.len()) == p
}

/// Whether `p` occurs in `s` at position `at`.
pub open spec fn occurs_at(s: Seq<char>, p: Seq<char>, at: int) -> bool {
    0 <= at && at + p.len() <= s.len() && s.subrange(at, at + p.len()) == p
}

/// Whether `p` occurs somewhere in `s`.
pub open spec fn contains(s: Seq<char>, p: Seq<char>) -> bool {
    exists|at: int| occurs_at(s, p, at)
}

fn occurs_here(v: &Vec<char>, p: &Vec<char>, at: usize) -> (r: bool)
    requires
        at + p@.len() <= v@.len(),
    ensures
        r == occurs_at(v@, p@, at as int),
{
    let mut i: usize = 0;
    while i < p.len()
        invariant
            i <= p@.len(),
            at + p@.len() <= v.len(),
            forall|k: int| 0 <= k < i ==> v@[at + k] == p@[k],
        decreases p@.len() - i,
    {
        if v[at + i] != p[i] {
            assert(v@.subrange(at as int, at + p@.len())[i as int] != p@[i as int]);
            return false;
        }
        i += 1;
    }
    assert(v@.subrange(at as int, at + p@.len()) =~= p@);
    true
}

/// Whether `s` begins with `p`.
pub fn starts_with(s: &str, p: &str) -> (r: bool)
    ensures
        r == starts(s@, p@),
{
    let v: Vec<char> = chars_of(s);
    let w: Vec<char> = chars_of(p);
    if w.len() > v.len() {
        return false;
    }
    let r: bool = occurs_here(&v, &w, 0);
    assert(s@.subrange(0, p@.len() as int) =~= s@.take(p@.len() as int));
    r
}

/// Whether `s` ends with `p`.
pub fn ends_with(s: &str, p: &str) -> (r: bool)
    ensures
        r == ends(s@, p@),
{
    let v: Vec<char> = chars_of(s);
    let w: Vec<char> = chars_of(p);
    if w.len() > v.len() {
        return false;
    }
    let at: usize = v.len() - w.len();
    let r: bool = occurs_here(&v, &w, at);
    assert(s@.subrange(at as int, at + p@.len()) =~= s@.skip(s@.len() - p@.len()));
    r
}

/// Whether `p` occurs in `s`.
pub fn contains_text(s: &str, p: &str) -> (r: bool)
    ensures
        r == contains(s@, p@),
{
    let v: Vec<char> = chars_of(s);
    let w: Vec<char> = chars_of(p);
    if w.len() > v.len() {
        return false;
    }
    let last: usize = v.len() - w.len();
    let mut at: usize = 0;
    while at <= last
        invariant
            v@ == s@,
            w@ == p@,
            last == v@.len() - w@.len(),
            at <= last + 1,
            forall|k: int| 0 <= k < at ==> !occurs_at(s@, p@, k),
        decreases last + 1 - at,
    {
        if occurs_here(&v, &w, at) {
            return true;
        }
        if at == last {
            assert(forall|k: int| 0 <= k <= last ==> !occurs_at(s@, p@, k));
            return false;
        }
        at += 1;
    }
    false
}

/// What follows the prefix `p`, where `s` has it.
pub fn strip_prefix(s: &str, p: &str) -> (r: Option<String>)
    ensures
        starts(s@, p@) ==> r is Some && r->0@ == s@.skip(p@.len() as int),
        !starts(s@, p@) ==> r is None,
{
    if starts_with(s, p) {
        let v: Vec<char> = chars_of(s);
        let from: usize = chars_of(p).len();
        let to: usize = v.len();
        assert(s@.skip(from as int) =~= s@.subrange(from as int, to as int));
        Some(text_of(&v, from, to))
    } else {
        None
    }
}

/// The position of the first `c` in `s`, or the length of `s`.
pub open spec fn first_of(s: Seq<char>, c: char) -> int
    decreases s.len(),
{
    if s.len() == 0 || s[0] == c {
        0
    } else {
        1 + first_of(s.skip(1), c)
    }
}

/// The first `c` comes at `first_of(s, c)`, and not before.
pub proof fn lemma_first_of(s: Seq<char>, c: char)
    ensures
        0 <= first_of(s, c) <= s.len(),
        first_of(s, c) < s.len() ==> s[first_of(s, c)] == c,
        forall|i: int| 0 <= i < first_of(s, c) ==> s[i] != c,
        first_of(s, c) < s.len() <==> s.contains(c),
    decreases s.len(),
{
    if s.len() != 0 && s[0] != c {
        lemma_first_of(s.skip(1), c);
        let k = first_of(s.skip(1), c);
        assert forall|i: int| 0 <= i < k + 1 implies s[i] != c by {
            if i > 0 {
                assert(s.skip(1)[i - 1] == s[i]);
            }
        }
        if k < s.skip(1).len() {
            assert(s.skip(1)[k] == s[k + 1]);
        } else {
            assert(!s.contains(c)) by {
                assert forall|i: int| 0 <= i < s.len() implies s[i] != c by {}
            }
        }
    } else if s.len() != 0 {
        assert(s.contains(c));
    }
}

/// What comes before the first `c`; all of `s` where there is none.
pub open spec fn before(s: Seq<char>, c: char) -> Seq<char> {
    s.take(first_of(s, c))
}

/// What comes after the first `c`; `None` where there is none.
pub open spec fn after(s: Seq<char>, c: char) -> Option<Seq<char>> {
    if first_of(s, c) < s.len() {
        Some(s.skip(first_of(s, c) + 1))
    } else {
        None
    }
}

/// The position of the first `c`, or the length.
pub fn position_of(v: &Vec<char>, c: char) -> (r: usize)
    ensures
        r == first_of(v@, c),
        r <= v@.len(),
{
    let mut i: usize = 0;
    while i < v.len()
        invariant
            i <= v@.len(),
            forall|k: int| 0 <= k < i ==> v@[k] != c,
        decreases v@.len() - i,
    {
        if v[i] == c {
            proof {
                lemma_first_of(v@, c);
                assert(v@.contains(c));
            }
            return i;
        }
        i += 1;
    }
    proof {
        lemma_first_of(v@, c);
    }
    i
}

/// `s` cut at its first `c`: what comes before it, and what comes after where there is one.
pub fn split_once(s: &str, c: char) -> (r: (String, Option<String>))
    ensures
        r.0@ == before(s@, c),
        text_option(r.1) == after(s@, c),
{
    let v: Vec<char> = chars_of(s);
    let at: usize = position_of(&v, c);
    let head: String = text_of(&v, 0, at);
    assert(s@.subrange(0, at as int) =~= s@.take(at as int));
    if at < v.len() {
        let tail: String = text_of(&v, at + 1, v.len());
        assert(s@.subrange(at + 1, s@.len() as int) =~= s@.skip(at + 1));
        (head, Some(tail))
    } else {
        (head, None)
    }
}

// ── Splitting and joining ────────────────────────────────────────────────────

/// The pieces of `s` between the separators: each separator ends a piece and opens the next.
pub open spec fn split(s: Seq<char>, sep: char) -> Seq<Seq<char>>
    decreases s.len(),
{
    if s.len() == 0 {
        seq![Seq::<char>::empty()]
    } else {
        let pieces = split(s.drop_last(), sep);
        if s.last() == sep {
            pieces.push(Seq::empty())
        } else {
            pieces.drop_last().push(pieces.last().push(s.last()))
        }
    }
}

/// The pieces of `s` between the separators.
pub fn split_text(s: &str, sep: char) -> (r: Vec<String>)
    ensures
        texts(r@) == split(s@, sep),
        r@.len() >= 1,
{
    let v: Vec<char> = chars_of(s);
    let mut out: Vec<String> = Vec::new();
    let mut cur: String = String::new();
    let mut i: usize = 0;
    assert(s@.take(0) =~= Seq::<char>::empty());
    assert(texts(out@).push(cur@) =~= split(s@.take(0), sep));
    while i < v.len()
        invariant
            v@ == s@,
            i <= v@.len(),
            texts(out@).push(cur@) == split(s@.take(i as int), sep),
        decreases v@.len() - i,
    {
        let c: char = v[i];
        let ghost prev = texts(out@).push(cur@);
        assert(s@.take(i + 1).drop_last() =~= s@.take(i as int));
        if c == sep {
            let ghost out0 = out@;
            let ghost cur0 = cur@;
            out.push(cur);
            cur = String::new();
            assert(texts(out@) =~= texts(out0).push(cur0));
        } else {
            let ghost cur0 = cur@;
            cur.push(c);
            assert(prev.drop_last() =~= texts(out@));
            assert(prev.last() == cur0);
        }
        i += 1;
    }
    let ghost out0 = out@;
    let ghost cur0 = cur@;
    out.push(cur);
    assert(texts(out@) =~= texts(out0).push(cur0));
    assert(s@.take(s@.len() as int) =~= s@);
    out
}

/// The texts of `v` one after another, with `sep` between neighbours.
pub open spec fn joined(v: Seq<Seq<char>>, sep: Seq<char>) -> Seq<char>
    decreases v.len(),
{
    if v.len() == 0 {
        Seq::empty()
    } else if v.len() == 1 {
        v[0]
    } else {
        joined(v.drop_last(), sep) + sep + v.last()
    }
}

/// The texts of `v` with `sep` between neighbours.
pub fn join(v: &Vec<String>, sep: &str) -> (r: String)
    ensures
        r@ == joined(texts(v@), sep@),
{
    let mut out: String = String::new();
    let mut i: usize = 0;
    assert(texts(v@).take(0) =~= Seq::<Seq<char>>::empty());
    while i < v.len()
        invariant
            i <= v@.len(),
            out@ == joined(texts(v@).take(i as int), sep@),
        decreases v@.len() - i,
    {
        let ghost all = texts(v@);
        assert(all.take(i + 1).drop_last() =~= all.take(i as int));
        assert(all.take(i + 1).last() == v@[i as int]@);
        if i > 0 {
            out.append(sep);
        }
        let ghost before_item = out@;
        out.append(v[i].as_str());
        if i == 0 {
            assert(before_item + v@[i as int]@ =~= v@[i as int]@);
        }
        i += 1;
    }
    assert(texts(v@).take(v@.len() as int) =~= texts(v@));
    out
}

/// A text without the separator is one piece.
pub proof fn unbroken_text_is_one_piece(p: Seq<char>, sep: char)
    requires
        !p.contains(sep),
    ensures
        split(p, sep) == seq![p],
    decreases p.len(),
{
    if p.len() > 0 {
        let front = p.drop_last();
        assert forall|i: int| 0 <= i < front.len() implies front[i] != sep by {
            assert(p.contains(p[i]));
        }
        unbroken_text_is_one_piece(front, sep);
        assert(p.contains(p[p.len() - 1]));
        assert(front.push(p.last()) =~= p);
        assert(split(p, sep) =~= seq![p]);
    } else {
        assert(p =~= Seq::<char>::empty());
    }
}

/// What follows a last separator is a piece of its own.
pub proof fn separator_opens_a_piece(a: Seq<char>, p: Seq<char>, sep: char)
    requires
        !p.contains(sep),
    ensures
        split(a + seq![sep] + p, sep) == split(a, sep).push(p),
    decreases p.len(),
{
    let s = a + seq![sep] + p;
    if p.len() == 0 {
        assert(s.drop_last() =~= a);
        assert(s.last() == sep);
        assert(p =~= Seq::<char>::empty());
    } else {
        let front = p.drop_last();
        assert forall|i: int| 0 <= i < front.len() implies front[i] != sep by {
            assert(p.contains(p[i]));
        }
        separator_opens_a_piece(a, front, sep);
        assert(p.contains(p[p.len() - 1]));
        assert(s.drop_last() =~= a + seq![sep] + front);
        assert(front.push(p.last()) =~= p);
        assert(split(s, sep) =~= split(a, sep).push(p));
    }
}

/// Splitting undoes joining: pieces without the separator come back as they were.
pub proof fn split_undoes_join(pieces: Seq<Seq<char>>, sep: char)
    requires
        pieces.len() >= 1,
        forall|i: int| 0 <= i < pieces.len() ==> !(#[trigger] pieces[i]).contains(sep),
    ensures
        split(joined(pieces, seq![sep]), sep) == pieces,
    decreases pieces.len(),
{
    if pieces.len() == 1 {
        unbroken_text_is_one_piece(pieces[0], sep);
        assert(seq![pieces[0]] =~= pieces);
    } else {
        let front = pieces.drop_last();
        assert forall|i: int| 0 <= i < front.len() implies !(#[trigger] front[i]).contains(sep) by {
            assert(front[i] == pieces[i]);
        }
        split_undoes_join(front, sep);
        assert(!pieces[pieces.len() - 1].contains(sep));
        separator_opens_a_piece(joined(front, seq![sep]), pieces.last(), sep);
        assert(front.push(pieces.last()) =~= pieces);
    }
}

/// Joining undoes splitting, and no piece holds the separator.
pub proof fn join_undoes_split(s: Seq<char>, sep: char)
    ensures
        split(s, sep).len() >= 1,
        joined(split(s, sep), seq![sep]) == s,
        forall|i: int| 0 <= i < split(s, sep).len() ==> !(#[trigger] split(s, sep)[i]).contains(sep),
    decreases s.len(),
{
    let pieces = split(s, sep);
    if s.len() == 0 {
        assert(joined(pieces, seq![sep]) =~= s);
    } else {
        let front = s.drop_last();
        let old_pieces = split(front, sep);
        join_undoes_split(front, sep);
        assert(front.push(s.last()) =~= s);
        if s.last() == sep {
            assert(pieces.drop_last() =~= old_pieces);
            assert(joined(pieces, seq![sep]) =~= s);
        } else {
            let last = old_pieces.last();
            assert(!old_pieces[old_pieces.len() - 1].contains(sep));
            assert forall|i: int| 0 <= i < pieces.len() implies !(#[trigger] pieces[i]).contains(
                sep,
            ) by {
                if i < pieces.len() - 1 {
                    assert(pieces[i] == old_pieces[i]);
                } else {
                    let p = last.push(s.last());
                    assert(pieces[i] == p);
                    assert forall|k: int| 0 <= k < p.len() implies p[k] != sep by {
                        if k < last.len() {
                            assert(last.contains(last[k]));
                        }
                    }
                }
            }
            if pieces.len() == 1 {
                assert(joined(pieces, seq![sep]) =~= s);
            } else {
                assert(pieces.drop_last() =~= old_pieces.drop_last());
                assert(joined(pieces, seq![sep]) =~= s);
            }
        }
    }
}

/// A text is cut at its first separator: what stands before holds none.
pub proof fn cut_comes_at_the_first(head: Seq<char>, c: char, rest: Seq<char>)
    requires
        !head.contains(c),
    ensures
        before(head + seq![c] + rest, c) == head,
        after(head + seq![c] + rest, c) == Some(rest),
        before(head, c) == head,
        after(head, c) is None,
{
    let s = head + seq![c] + rest;
    lemma_first_of(s, c);
    lemma_first_of(head, c);
    let k = first_of(s, c);
    assert(s[head.len() as int] == c);
    if k < head.len() {
        assert(head[k] == s[k]);
        assert(head.contains(head[k]));
    }
    if k > head.len() {
        assert(s[head.len() as int] != c);
    }
    assert(s.contains(s[head.len() as int]));
    assert(s.take(k) =~= head);
    assert(s.skip(k + 1) =~= rest);
    assert(head.take(head.len() as int) =~= head);
}

// ── Characters ───────────────────────────────────────────────────────────────

/// The Unicode `White_Space` characters.
pub open spec fn is_white(c: char) -> bool {
    let n = c as int;
    9 <= n <= 13 || n == 0x20 || n == 0x85 || n == 0xa0 || n == 0x1680 || 0x2000 <= n <= 0x200a || n
        == 0x2028 || n == 0x2029 || n == 0x202f || n == 0x205f || n == 0x3000
}

fn is_white_char(c: char) -> (r: bool)
    ensures
        r == is_white(c),
{
    let n: u32 = c as u32;
    (9 <= n && n <= 13) || n == 0x20 || n == 0x85 || n == 0xa0 || n == 0x1680 || (0x2000 <= n && n
        <= 0x200a) || n == 0x2028 || n == 0x2029 || n == 0x202f || n == 0x205f || n == 0x3000
}

/// `s` without the white space that it begins with.
pub open spec fn trim_start(s: Seq<char>) -> Seq<char>
    decreases s.len(),
{
    if s.len() > 0 && is_white(s[0]) {
        trim_start(s.skip(1))
    } else {
        s
    }
}

/// `s` without the white space that it ends with.
pub open spec fn trim_end(s: Seq<char>) -> Seq<char>
    decreases s.len(),
{
    if s.len() > 0 && is_white(s.last()) {
        trim_end(s.drop_last())
    } else {
        s
    }
}

/// `s` without the white space at both ends.
pub open spec fn trimmed(s: Seq<char>) -> Seq<char> {
    trim_end(trim_start(s))
}

/// `s` without the white space at both ends.
pub fn trim(s: &str) -> (r: String)
    ensures
        r@ == trimmed(s@),
{
    let v: Vec<char> = chars_of(s);
    let mut from: usize = 0;
    assert(s@.skip(0) =~= s@);
    while from < v.len() && is_white_char(v[from])
        invariant
            v@ == s@,
            from <= v@.len(),
            trim_start(s@.skip(from as int)) == trim_start(s@),
        decreases v@.len() - from,
    {
        assert(s@.skip(from as int).skip(1) =~= s@.skip(from + 1));
        from += 1;
    }
    let ghost rest = s@.skip(from as int);
    assert(trim_start(s@) == rest);
    let mut to: usize = v.len();
    assert(s@.subrange(from as int, to as int) =~= rest);
    while from < to && is_white_char(v[to - 1])
        invariant
            v@ == s@,
            from <= to <= v@.len(),
            trim_end(s@.subrange(from as int, to as int)) == trim_end(rest),
        decreases to,
    {
        assert(s@.subrange(from as int, to as int).drop_last() =~= s@.subrange(
            from as int,
            to - 1,
        ));
        to -= 1;
    }
    text_of(&v, from, to)
}

/// Trimming leaves no white space at either end.
pub proof fn lemma_trim_end_last(s: Seq<char>)
    ensures
        trim_end(s).len() <= s.len(),
        trim_end(s) == s.take(trim_end(s).len() as int),
        trim_end(s).len() > 0 ==> !is_white(trim_end(s).last()),
    decreases s.len(),
{
    if s.len() > 0 && is_white(s.last()) {
        lemma_trim_end_last(s.drop_last());
        let k = trim_end(s).len() as int;
        assert(s.drop_last().take(k) =~= s.take(k));
    } else {
        assert(s.take(s.len() as int) =~= s);
    }
}

/// What is left after the leading white space begins with no white space.
pub proof fn lemma_trim_start_first(s: Seq<char>)
    ensures
        trim_start(s).len() > 0 ==> !is_white(trim_start(s)[0]),
    decreases s.len(),
{
    if s.len() > 0 && is_white(s[0]) {
        lemma_trim_start_first(s.skip(1));
    }
}

/// Trimming removes the white space around a text, and nothing of the text.
pub proof fn trimming_removes_what_is_around(left: Seq<char>, s: Seq<char>, right: Seq<char>)
    requires
        forall|i: int| 0 <= i < left.len() ==> is_white(#[trigger] left[i]),
        forall|i: int| 0 <= i < right.len() ==> is_white(#[trigger] right[i]),
        s.len() > 0 ==> !is_white(s[0]) && !is_white(s.last()),
    ensures
        trimmed(left + s + right) == s,
    decreases left.len() + right.len(),
{
    let all = left + s + right;
    if left.len() > 0 {
        assert(all[0] == left[0]);
        let rest = left.skip(1);
        assert forall|i: int| 0 <= i < rest.len() implies is_white(#[trigger] rest[i]) by {
            assert(rest[i] == left[i + 1]);
        }
        assert(all.skip(1) =~= rest + s + right);
        trimming_removes_what_is_around(rest, s, right);
    } else if s.len() == 0 {
        assert(all =~= right);
        if right.len() > 0 {
            let rest = right.skip(1);
            assert(right.skip(1) =~= left + s + rest);
            assert forall|i: int| 0 <= i < rest.len() implies is_white(#[trigger] rest[i]) by {
                assert(rest[i] == right[i + 1]);
            }
            assert(is_white(right[0]));
            trimming_removes_what_is_around(left, s, rest);
        } else {
            assert(all =~= s);
        }
    } else if right.len() > 0 {
        let rest = right.drop_last();
        assert(all[0] == s[0]);
        assert(trim_start(all) == all);
        assert(all.last() == right[right.len() - 1]);
        assert(all.drop_last() =~= left + s + rest);
        assert forall|i: int| 0 <= i < rest.len() implies is_white(#[trigger] rest[i]) by {
            assert(rest[i] == right[i]);
        }
        assert(all.drop_last()[0] == s[0]);
        assert(trim_start(all.drop_last()) == all.drop_last());
        trimming_removes_what_is_around(left, s, rest);
    } else {
        assert(all =~= s);
    }
}

/// White space is what Unicode says it is: among ASCII, the blank and the characters from tab to
/// carriage return.
pub proof fn blanks_and_controls_are_white(c: char)
    ensures
        (c as u32) < 128 ==> (is_white(c) <==> c == ' ' || ('\t' <= c && c <= '\r')),
        is_white('\u{a0}') && is_white('\u{3000}'),
{
}

/// A trimmed text is its own trimming.
pub proof fn lemma_trimmed_idempotent(s: Seq<char>)
    ensures
        trimmed(trimmed(s)) == trimmed(s),
{
    let a = trim_start(s);
    let t = trim_end(a);
    lemma_trim_start_first(s);
    lemma_trim_end_last(a);
    if t.len() > 0 {
        assert(t[0] == a[0]);
    }
}

/// `c` in lower case where it is an ASCII letter.
pub open spec fn lower_char(c: char) -> char {
    if 'A' <= c && c <= 'Z' {
        (c as u32 + 32) as char
    } else {
        c
    }
}

/// `s` with its ASCII letters in lower case.
pub open spec fn ascii_lower(s: Seq<char>) -> Seq<char> {
    s.map_values(|c: char| lower_char(c))
}

/// Only the letters from `A` to `Z` change their case, and they all do.
pub proof fn letters_change_their_case(c: char)
    ensures
        'A' <= c && c <= 'Z' ==> lower_char(c) as u32 == c as u32 + 32,
        !('A' <= c && c <= 'Z') ==> lower_char(c) == c,
        'a' <= c && c <= 'z' ==> upper_char(c) as u32 + 32 == c as u32,
        !('a' <= c && c <= 'z') ==> upper_char(c) == c,
{
}

fn lower_char_of(c: char) -> (r: char)
    ensures
        r == lower_char(c),
{
    if 'A' <= c && c <= 'Z' {
        ((c as u8) + 32) as char
    } else {
        c
    }
}

/// `s` with its ASCII letters in lower case.
pub fn to_ascii_lower(s: &str) -> (r: String)
    ensures
        r@ == ascii_lower(s@),
{
    let v: Vec<char> = chars_of(s);
    let mut out: String = String::new();
    let mut i: usize = 0;
    while i < v.len()
        invariant
            i <= v@.len(),
            out@ == ascii_lower(v@.take(i as int)),
        decreases v@.len() - i,
    {
        out.push(lower_char_of(v[i]));
        assert(ascii_lower(v@.take(i + 1)) =~= ascii_lower(v@.take(i as int)).push(
            lower_char(v@[i as int]),
        ));
        i += 1;
    }
    assert(v@.take(v@.len() as int) =~= v@);
    out
}

/// `c` in upper case where it is an ASCII letter.
pub open spec fn upper_char(c: char) -> char {
    if 'a' <= c && c <= 'z' {
        (c as u32 - 32) as char
    } else {
        c
    }
}

/// `s` with its ASCII letters in upper case.
pub open spec fn ascii_upper(s: Seq<char>) -> Seq<char> {
    s.map_values(|c: char| upper_char(c))
}

fn upper_char_of(c: char) -> (r: char)
    ensures
        r == upper_char(c),
{
    if 'a' <= c && c <= 'z' {
        ((c as u8) - 32) as char
    } else {
        c
    }
}

/// `s` with its ASCII letters in upper case.
pub fn to_ascii_upper(s: &str) -> (r: String)
    ensures
        r@ == ascii_upper(s@),
{
    let v: Vec<char> = chars_of(s);
    let mut out: String = String::new();
    let mut i: usize = 0;
    while i < v.len()
        invariant
            i <= v@.len(),
            out@ == ascii_upper(v@.take(i as int)),
        decreases v@.len() - i,
    {
        out.push(upper_char_of(v[i]));
        assert(ascii_upper(v@.take(i + 1)) =~= ascii_upper(v@.take(i as int)).push(
            upper_char(v@[i as int]),
        ));
        i += 1;
    }
    assert(v@.take(v@.len() as int) =~= v@);
    out
}

// ── Lists in a text ──────────────────────────────────────────────────────────

/// The pieces without white space around them, in order; a piece of which nothing is left is
/// passed over.
pub open spec fn trimmed_pieces(pieces: Seq<Seq<char>>) -> Seq<Seq<char>>
    decreases pieces.len(),
{
    if pieces.len() == 0 {
        Seq::empty()
    } else {
        let front = trimmed_pieces(pieces.drop_last());
        if trimmed(pieces.last()).len() == 0 {
            front
        } else {
            front.push(trimmed(pieces.last()))
        }
    }
}

/// The items of a list that is written with commas.
pub open spec fn listed_items(s: Seq<char>) -> Seq<Seq<char>> {
    trimmed_pieces(split(s, ','))
}

/// The items of a list that is written with commas.
pub fn list_items(s: &str) -> (r: Vec<String>)
    ensures
        texts(r@) == listed_items(s@),
{
    let pieces: Vec<String> = split_text(s, ',');
    let mut out: Vec<String> = Vec::new();
    let mut i: usize = 0;
    let ghost all = texts(pieces@);
    assert(all.take(0) =~= Seq::<Seq<char>>::empty());
    assert(texts(out@) =~= Seq::<Seq<char>>::empty());
    while i < pieces.len()
        invariant
            i <= pieces@.len(),
            all == texts(pieces@),
            texts(out@) == trimmed_pieces(all.take(i as int)),
        decreases pieces@.len() - i,
    {
        assert(all.take(i + 1).drop_last() =~= all.take(i as int));
        assert(all.take(i + 1).last() == pieces@[i as int]@);
        let item: String = trim(pieces[i].as_str());
        if !item.as_str().is_empty() {
            let ghost before_push = out@;
            let ghost t = item@;
            out.push(item);
            assert(texts(out@) =~= texts(before_push).push(t));
        }
        i += 1;
    }
    assert(all.take(all.len() as int) =~= all);
    out
}

/// The items of a list come back as they were: those that are not empty, hold no comma, and have no
/// white space around them.
pub proof fn listed_items_come_back(items: Seq<Seq<char>>)
    requires
        items.len() >= 1,
        forall|i: int|
            0 <= i < items.len() ==> (#[trigger] items[i]).len() > 0 && !items[i].contains(',')
                && trimmed(items[i]) == items[i],
    ensures
        listed_items(joined(items, seq![','])) == items,
{
    split_undoes_join(items, ',');
    lemma_trimmed_pieces(items);
}

proof fn lemma_trimmed_pieces(items: Seq<Seq<char>>)
    requires
        forall|i: int|
            0 <= i < items.len() ==> (#[trigger] items[i]).len() > 0 && trimmed(items[i])
                == items[i],
    ensures
        trimmed_pieces(items) == items,
    decreases items.len(),
{
    if items.len() > 0 {
        let front = items.drop_last();
        assert forall|i: int| 0 <= i < front.len() implies (#[trigger] front[i]).len() > 0
            && trimmed(front[i]) == front[i] by {
            assert(front[i] == items[i]);
        }
        lemma_trimmed_pieces(front);
        assert(items[items.len() - 1].len() > 0);
        assert(front.push(items.last()) =~= items);
    } else {
        assert(trimmed_pieces(items) =~= items);
    }
}

/// No item of a list is empty.
pub proof fn items_are_not_empty(pieces: Seq<Seq<char>>)
    ensures
        forall|i: int|
            0 <= i < trimmed_pieces(pieces).len() ==> (#[trigger] trimmed_pieces(pieces)[i]).len()
                > 0,
    decreases pieces.len(),
{
    if pieces.len() > 0 {
        items_are_not_empty(pieces.drop_last());
        let front = trimmed_pieces(pieces.drop_last());
        assert forall|i: int| 0 <= i < trimmed_pieces(pieces).len() implies (
        #[trigger] trimmed_pieces(pieces)[i]).len() > 0 by {
            if i < front.len() {
                assert(trimmed_pieces(pieces)[i] == front[i]);
            }
        }
    }
}

// ── Cutting and replacing ────────────────────────────────────────────────────

/// What comes before the suffix `p`, where `s` has it.
pub fn strip_suffix(s: &str, p: &str) -> (r: Option<String>)
    ensures
        ends(s@, p@) ==> r is Some && r->0@ == s@.take(s@.len() - p@.len()),
        !ends(s@, p@) ==> r is None,
{
    if ends_with(s, p) {
        let v: Vec<char> = chars_of(s);
        let to: usize = v.len() - chars_of(p).len();
        assert(s@.take(to as int) =~= s@.subrange(0, to as int));
        Some(text_of(&v, 0, to))
    } else {
        None
    }
}

/// `s` with every `from` turned into `to`.
pub open spec fn replaced(s: Seq<char>, from: char, to: char) -> Seq<char> {
    s.map_values(
        |c: char|
            if c == from {
                to
            } else {
                c
            },
    )
}

/// `s` with every `from` turned into `to`.
pub fn replace_char(s: &str, from: char, to: char) -> (r: String)
    ensures
        r@ == replaced(s@, from, to),
{
    let v: Vec<char> = chars_of(s);
    let mut out: String = String::new();
    let mut i: usize = 0;
    while i < v.len()
        invariant
            i <= v@.len(),
            out@ =~= replaced(v@.take(i as int), from, to),
        decreases v@.len() - i,
    {
        out.push(
            if v[i] == from {
                to
            } else {
                v[i]
            },
        );
        assert(v@.take(i + 1).last() == v@[i as int]);
        i += 1;
    }
    assert(v@.take(v@.len() as int) =~= v@);
    out
}

/// `s` without the `c`s that it begins with.
pub open spec fn without_leading(s: Seq<char>, c: char) -> Seq<char>
    decreases s.len(),
{
    if s.len() > 0 && s[0] == c {
        without_leading(s.skip(1), c)
    } else {
        s
    }
}

/// `s` without the `c`s that it begins with.
pub fn trim_leading(s: &str, c: char) -> (r: String)
    ensures
        r@ == without_leading(s@, c),
{
    let v: Vec<char> = chars_of(s);
    let mut i: usize = 0;
    assert(s@.skip(0) =~= s@);
    while i < v.len() && v[i] == c
        invariant
            v@ == s@,
            i <= v@.len(),
            without_leading(s@.skip(i as int), c) == without_leading(s@, c),
        decreases v@.len() - i,
    {
        assert(s@.skip(i as int).skip(1) =~= s@.skip(i + 1));
        i += 1;
    }
    assert(s@.skip(i as int) =~= s@.subrange(i as int, s@.len() as int));
    text_of(&v, i, v.len())
}

/// What is left begins with another character, and is the end of `s`.
pub proof fn lemma_without_leading(s: Seq<char>, c: char)
    ensures
        without_leading(s, c).len() > 0 ==> without_leading(s, c)[0] != c,
        without_leading(s, c).len() <= s.len(),
        without_leading(s, c) == s.skip(s.len() - without_leading(s, c).len()),
    decreases s.len(),
{
    if s.len() > 0 && s[0] == c {
        lemma_without_leading(s.skip(1), c);
        let k = without_leading(s, c).len() as int;
        assert(s.skip(1).skip(s.len() - 1 - k) =~= s.skip(s.len() - k));
    } else {
        assert(s.skip(0) =~= s);
    }
}

// ── Lines ────────────────────────────────────────────────────────────────────

/// A line without the carriage return at its end.
pub open spec fn chomped(line: Seq<char>) -> Seq<char> {
    if line.len() > 0 && line.last() == '\r' {
        line.drop_last()
    } else {
        line
    }
}

/// The lines among pieces that newlines end, all but the last of them.
pub open spec fn ended_lines(pieces: Seq<Seq<char>>) -> Seq<Seq<char>> {
    pieces.map_values(|p: Seq<char>| chomped(p))
}

/// The lines of a text: each ends with a newline, with or without a carriage return before it; the
/// newline of the last one may be missing.
pub open spec fn lines_of(s: Seq<char>) -> Seq<Seq<char>> {
    let pieces = split(s, '\n');
    let done = ended_lines(pieces.drop_last());
    if pieces.last().len() == 0 {
        done
    } else {
        done.push(pieces.last())
    }
}

fn chomp(line: &str) -> (r: String)
    ensures
        r@ == chomped(line@),
{
    let v: Vec<char> = chars_of(line);
    if v.len() > 0 && v[v.len() - 1] == '\r' {
        assert(line@.drop_last() =~= line@.subrange(0, line@.len() - 1));
        text_of(&v, 0, v.len() - 1)
    } else {
        line.to_string()
    }
}

/// The lines of a text.
pub fn lines(s: &str) -> (r: Vec<String>)
    ensures
        texts(r@) == lines_of(s@),
{
    let pieces: Vec<String> = split_text(s, '\n');
    let ghost all = texts(pieces@);
    let mut out: Vec<String> = Vec::new();
    let last: usize = pieces.len() - 1;
    let mut i: usize = 0;
    assert(texts(out@) =~= ended_lines(all.take(0)));
    while i < last
        invariant
            i <= last,
            last == pieces@.len() - 1,
            all == texts(pieces@),
            texts(out@) == ended_lines(all.take(i as int)),
        decreases last - i,
    {
        let line: String = chomp(pieces[i].as_str());
        let ghost before_push = out@;
        let ghost t = line@;
        out.push(line);
        assert(texts(out@) =~= texts(before_push).push(t));
        assert(ended_lines(all.take(i + 1)) =~= ended_lines(all.take(i as int)).push(
            chomped(all[i as int]),
        ));
        i += 1;
    }
    assert(all.take(last as int) =~= all.drop_last());
    assert(all.last() == pieces@[last as int]@);
    if !pieces[last].as_str().is_empty() {
        let ghost before_push = out@;
        out.push(pieces[last].clone());
        assert(texts(out@) =~= texts(before_push).push(all.last()));
    }
    out
}

// ── Order ────────────────────────────────────────────────────────────────────

/// Whether `a` comes before `b` in the order of characters, or is the same.
pub open spec fn precedes(a: Seq<char>, b: Seq<char>) -> bool
    decreases a.len(),
{
    if a.len() == 0 {
        true
    } else if b.len() == 0 {
        false
    } else if a[0] == b[0] {
        precedes(a.skip(1), b.skip(1))
    } else {
        a[0] < b[0]
    }
}

/// Whether `a` comes before `b` in the order of characters, or is the same.
pub fn comes_first(a: &str, b: &str) -> (r: bool)
    ensures
        r == precedes(a@, b@),
{
    let x: Vec<char> = chars_of(a);
    let y: Vec<char> = chars_of(b);
    let mut i: usize = 0;
    assert(a@.skip(0) =~= a@ && b@.skip(0) =~= b@);
    while i < x.len()
        invariant
            x@ == a@,
            y@ == b@,
            i <= x@.len(),
            i <= y@.len(),
            precedes(a@.skip(i as int), b@.skip(i as int)) == precedes(a@, b@),
        decreases x@.len() - i,
    {
        if i >= y.len() {
            return false;
        }
        if x[i] != y[i] {
            return x[i] < y[i];
        }
        assert(a@.skip(i as int).skip(1) =~= a@.skip(i + 1));
        assert(b@.skip(i as int).skip(1) =~= b@.skip(i + 1));
        i += 1;
    }
    true
}

/// Of two texts one comes before the other, or they are the same.
pub proof fn precedes_is_total(a: Seq<char>, b: Seq<char>)
    ensures
        precedes(a, b) || precedes(b, a),
        precedes(a, a),
    decreases a.len(),
{
    if a.len() > 0 {
        if b.len() > 0 {
            precedes_is_total(a.skip(1), b.skip(1));
        } else {
            precedes_is_total(a.skip(1), b);
        }
    }
}

/// Of two different texts, exactly one comes before the other.
pub proof fn precedes_is_strict(a: Seq<char>, b: Seq<char>)
    ensures
        !precedes(b, a) <==> precedes(a, b) && a != b,
    decreases a.len(),
{
    if a.len() > 0 && b.len() > 0 && a[0] == b[0] {
        precedes_is_strict(a.skip(1), b.skip(1));
        assert(a =~= seq![a[0]] + a.skip(1));
        assert(b =~= seq![b[0]] + b.skip(1));
    } else if a.len() == 0 && b.len() == 0 {
        assert(a =~= b);
    }
}

/// What comes before a text comes before all that follow it.
pub proof fn precedes_is_transitive(a: Seq<char>, b: Seq<char>, c: Seq<char>)
    requires
        precedes(a, b),
        precedes(b, c),
    ensures
        precedes(a, c),
    decreases a.len(),
{
    if a.len() > 0 && a[0] == b[0] && b[0] == c[0] {
        precedes_is_transitive(a.skip(1), b.skip(1), c.skip(1));
    }
}

/// Whether texts stand in order.
pub open spec fn in_order(v: Seq<Seq<char>>) -> bool {
    forall|i: int, j: int| 0 <= i < j < v.len() ==> precedes(#[trigger] v[i], #[trigger] v[j])
}

/// Puts texts in order.
pub fn sort_texts(v: Vec<String>) -> (r: Vec<String>)
    ensures
        in_order(texts(r@)),
        r@.to_multiset() == v@.to_multiset(),
{
    let mut rest: Vec<String> = v;
    let mut out: Vec<String> = Vec::new();
    let ghost all = rest@;
    proof {
        assert(out@ + rest@ =~= all);
    }
    while rest.len() > 0
        invariant
            (rest@ + out@).to_multiset() == all.to_multiset(),
            in_order(texts(out@)),
        decreases rest@.len(),
    {
        let ghost rest0 = rest@;
        let ghost out0 = out@;
        let item: String = rest.pop().unwrap();
        assert(rest0 =~= rest@.push(item));
        let mut at: usize = 0;
        while at < out.len() && comes_first(out[at].as_str(), item.as_str())
            invariant
                at <= out@.len(),
                out@ == out0,
                forall|k: int| 0 <= k < at ==> precedes((#[trigger] out@[k])@, item@),
            decreases out@.len() - at,
        {
            at += 1;
        }
        let ghost put = item;
        out.insert(at, item);
        proof {
            let now = out@;
            assert(now =~= out0.insert(at as int, put));
            assert forall|i: int, j: int| 0 <= i < j < texts(now).len() implies precedes(
                #[trigger] texts(now)[i],
                #[trigger] texts(now)[j],
            ) by {
                if j < at {
                    assert(texts(out0)[i] == texts(now)[i] && texts(out0)[j] == texts(now)[j]);
                } else if i > at {
                    assert(texts(out0)[i - 1] == texts(now)[i] && texts(out0)[j - 1] == texts(
                        now,
                    )[j]);
                } else if i == at {
                    precedes_is_total(out0[at as int]@, put@);
                    if j - 1 > at {
                        assert(precedes(texts(out0)[at as int], texts(out0)[j - 1]));
                        precedes_is_transitive(put@, out0[at as int]@, out0[j - 1]@);
                    }
                } else if j == at {
                    assert(precedes(out0[i]@, put@));
                } else {
                    assert(texts(out0)[i] == texts(now)[i] && texts(out0)[j - 1] == texts(now)[j]);
                    assert(precedes(texts(out0)[i], texts(out0)[j - 1]));
                }
            }
            lemma_move_between(rest@, out0, put, at as int);
            assert(rest0 + out0 =~= rest@.push(put) + out0);
        }
    }
    assert(rest@ + out@ =~= out@);
    out
}

proof fn lemma_move_between(a: Seq<String>, b: Seq<String>, item: String, at: int)
    requires
        0 <= at <= b.len(),
    ensures
        (a + b.insert(at, item)).to_multiset() == (a.push(item) + b).to_multiset(),
{
    broadcast use vstd::seq_lib::group_to_multiset_ensures;

    vstd::seq_lib::lemma_multiset_commutative(a, b.insert(at, item));
    vstd::seq_lib::lemma_multiset_commutative(a.push(item), b);
    let left = b.take(at);
    let right = b.skip(at);
    assert(b =~= left + right);
    assert(b.insert(at, item) =~= left + (seq![item] + right));
    vstd::seq_lib::lemma_multiset_commutative(left, seq![item] + right);
    vstd::seq_lib::lemma_multiset_commutative(seq![item], right);
    vstd::seq_lib::lemma_multiset_commutative(left, right);
    assert(a.push(item) =~= a + seq![item]);
    vstd::seq_lib::lemma_multiset_commutative(a, seq![item]);
}

// ── Bytes ────────────────────────────────────────────────────────────────────

/// What `String::from_utf8_lossy` makes of bytes.
pub uninterp spec fn lossy(bytes: Seq<u8>) -> Seq<char>;

/// `String::from_utf8_lossy`: the text depends on the bytes alone. Bytes that are UTF-8 give the
/// text that they encode; which replacements stand for others is left open.
#[verifier::external_body]
pub(crate) fn text_of_bytes(bytes: &[u8]) -> (r: String)
    ensures
        r@ == lossy(bytes@),
        valid_utf8(bytes@) ==> r@ == decode_utf8(bytes@),
{
    String::from_utf8_lossy(bytes).into_owned()
}

// ── Quoting ──────────────────────────────────────────────────────────────────

/// What `{:?}` shows for a text: it in double quotes, with what cannot stand there escaped.
pub uninterp spec fn quoted(s: Seq<char>) -> Seq<char>;

/// `format!` with `{:?}` of a `str`: the result depends on the text alone.
#[verifier::external_body]
pub(crate) fn quote(s: &str) -> (r: String)
    ensures
        r@ == quoted(s@),
{
    format!("{:?}", s)
}

/// What `{:?}` shows for a list of texts.
pub open spec fn quoted_list(items: Seq<Seq<char>>) -> Seq<char> {
    "["@ + joined(items.map_values(|s: Seq<char>| quoted(s)), ", "@) + "]"@
}

/// What `{:?}` shows for a list of texts.
pub fn quote_list(items: &Vec<String>) -> (r: String)
    ensures
        r@ == quoted_list(texts(items@)),
{
    let mut shown: Vec<String> = Vec::new();
    let mut i: usize = 0;
    while i < items.len()
        invariant
            i <= items@.len(),
            shown@.len() == i,
            forall|k: int| 0 <= k < i ==> (#[trigger] shown@[k])@ == quoted(items@[k]@),
        decreases items@.len() - i,
    {
        shown.push(quote(items[i].as_str()));
        i += 1;
    }
    assert(texts(shown@) =~= texts(items@).map_values(|s: Seq<char>| quoted(s)));
    "[".to_string().concat(join(&shown, ", ").as_str()).concat("]")
}

// ── Words ────────────────────────────────────────────────────────────────────

/// How many characters of `s` come before its first white space.
pub open spec fn word_length(s: Seq<char>) -> nat
    decreases s.len(),
{
    if s.len() == 0 || is_white(s[0]) {
        0
    } else {
        1 + word_length(s.skip(1))
    }
}

/// The words of `s`: its longest stretches without white space, in order.
pub open spec fn words_of(s: Seq<char>) -> Seq<Seq<char>>
    decreases s.len(),
{
    let n = word_length(s);
    if s.len() == 0 {
        Seq::empty()
    } else if is_white(s[0]) {
        words_of(s.skip(1))
    } else if n == 0 || n > s.len() {
        Seq::empty()
    } else {
        seq![s.take(n as int)] + words_of(s.skip(n as int))
    }
}

/// The words of `s`.
pub fn words(s: &str) -> (r: Vec<String>)
    ensures
        texts(r@) == words_of(s@),
{
    let v: Vec<char> = chars_of(s);
    let mut out: Vec<String> = Vec::new();
    let mut i: usize = 0;
    assert(s@.skip(0) =~= s@);
    assert(texts(out@) + words_of(s@) =~= words_of(s@));
    while i < v.len()
        invariant
            i <= v@.len(),
            v@ == s@,
            words_of(s@) == texts(out@) + words_of(s@.skip(i as int)),
        decreases v@.len() - i,
    {
        let ghost rest = s@.skip(i as int);
        if is_white_char(v[i]) {
            assert(rest.skip(1) =~= s@.skip(i + 1));
            i += 1;
        } else {
            let mut to: usize = i;
            while to < v.len() && !is_white_char(v[to])
                invariant
                    i <= to <= v@.len(),
                    v@ == s@,
                    word_length(s@.skip(i as int)) == to - i + word_length(s@.skip(to as int)),
                decreases v@.len() - to,
            {
                assert(s@.skip(to as int).skip(1) =~= s@.skip(to + 1));
                to += 1;
            }
            let ghost before = out@;
            let word: String = text_of(&v, i, to);
            let ghost text = word@;
            out.push(word);
            assert(text =~= rest.take(to - i));
            assert(rest.skip(to - i) =~= s@.skip(to as int));
            assert(texts(out@) =~= texts(before).push(text));
            assert(texts(before) + (seq![text] + words_of(s@.skip(to as int))) =~= texts(out@)
                + words_of(s@.skip(to as int)));
            i = to;
        }
    }
    assert(texts(out@) + Seq::<Seq<char>>::empty() =~= texts(out@));
    out
}

/// What is put before, behind or into a text is found there, and what is found was put there.
pub proof fn parts_are_found_where_they_stand(a: Seq<char>, p: Seq<char>, b: Seq<char>, s: Seq<char>)
    ensures
        starts(p + b, p),
        ends(a + p, p),
        contains(a + p + b, p),
        starts(s, p) ==> s == p + s.skip(p.len() as int),
        ends(s, p) ==> s == s.take(s.len() - p.len()) + p,
        contains(s, p) ==> exists|x: Seq<char>, y: Seq<char>| s == #[trigger] (x + p + y),
{
    assert((p + b).take(p.len() as int) =~= p);
    assert((a + p).skip(a.len() as int) =~= p);
    let at = a.len() as int;
    assert((a + p + b).subrange(at, at + p.len()) =~= p);
    assert(occurs_at(a + p + b, p, at));
    if starts(s, p) {
        assert(s =~= p + s.skip(p.len() as int));
    }
    if ends(s, p) {
        assert(s =~= s.take(s.len() - p.len()) + p);
    }
    if contains(s, p) {
        let k = choose|k: int| occurs_at(s, p, k);
        let (x, y) = (s.take(k), s.skip(k + p.len()));
        assert(s =~= x + p + y);
    }
}

/// A line ends at a newline, and a carriage return before it is no part of the line; without one the
/// text is one line, and an empty text has none.
pub proof fn lines_end_at_newlines(line: Seq<char>, next: Seq<char>)
    requires
        !line.contains('\n'),
        !next.contains('\n'),
        line.len() > 0,
        line.last() != '\r',
        next.len() > 0,
    ensures
        lines_of(Seq::empty()) == Seq::<Seq<char>>::empty(),
        lines_of(line) == seq![line],
        lines_of(line + seq!['\n']) == seq![line],
        lines_of(line + seq!['\r', '\n']) == seq![line],
        lines_of(line + seq!['\n'] + next) == seq![line, next],
{
    let none = Seq::<char>::empty();
    unbroken_text_is_one_piece(none, '\n');
    assert(lines_of(none) =~= Seq::<Seq<char>>::empty());
    unbroken_text_is_one_piece(line, '\n');
    assert(lines_of(line) =~= seq![line]);
    assert(line + seq!['\n'] =~= line + seq!['\n'] + none);
    separator_opens_a_piece(line, none, '\n');
    assert(split(line + seq!['\n'], '\n') =~= seq![line, none]);
    assert(lines_of(line + seq!['\n']) =~= seq![line]);
    let back = line + seq!['\r'];
    assert forall|i: int| 0 <= i < back.len() implies back[i] != '\n' by {
        if i < line.len() {
            assert(line.contains(line[i]));
        }
    }
    unbroken_text_is_one_piece(back, '\n');
    separator_opens_a_piece(back, none, '\n');
    assert(line + seq!['\r', '\n'] =~= back + seq!['\n'] + none);
    assert(back.drop_last() =~= line);
    assert(split(line + seq!['\r', '\n'], '\n') =~= seq![back, none]);
    assert(lines_of(line + seq!['\r', '\n']) =~= seq![line]);
    separator_opens_a_piece(line, next, '\n');
    assert(split(line + seq!['\n'] + next, '\n') =~= seq![line, next]);
    assert(lines_of(line + seq!['\n'] + next) =~= seq![line, next]);
}

/// Words stand between white space: one in front of a text is its first word, and white space in
/// front of it changes nothing.
pub proof fn words_stand_between_white_space(word: Seq<char>, c: char, rest: Seq<char>)
    requires
        word.len() > 0,
        forall|i: int| 0 <= i < word.len() ==> !is_white(#[trigger] word[i]),
        is_white(c),
    ensures
        words_of(word + seq![c] + rest) == seq![word] + words_of(rest),
        words_of(seq![c] + rest) == words_of(rest),
        words_of(word) == seq![word],
        words_of(Seq::empty()) == Seq::<Seq<char>>::empty(),
{
    let s = word + seq![c] + rest;
    lemma_word_length(word, seq![c] + rest);
    assert(s =~= word + (seq![c] + rest));
    assert(s.take(word.len() as int) =~= word);
    assert(s.skip(word.len() as int) =~= seq![c] + rest);
    assert((seq![c] + rest).skip(1) =~= rest);
    assert(s[0] == word[0] && !is_white(word[0]));
    assert(words_of(seq![c] + rest) == words_of(rest));
    assert(words_of(s) == seq![s.take(word.len() as int)] + words_of(s.skip(word.len() as int)));
    lemma_word_length(word, Seq::empty());
    assert(word + Seq::<char>::empty() =~= word);
    assert(word.take(word.len() as int) =~= word);
    assert(word.skip(word.len() as int) =~= Seq::<char>::empty());
    let none = Seq::<char>::empty();
    assert(words_of(none) =~= Seq::<Seq<char>>::empty());
    assert(words_of(word) == seq![word.take(word.len() as int)] + words_of(
        word.skip(word.len() as int),
    ));
    assert(words_of(word) =~= seq![word]);
}

proof fn lemma_word_length(word: Seq<char>, rest: Seq<char>)
    requires
        forall|i: int| 0 <= i < word.len() ==> !is_white(#[trigger] word[i]),
        rest.len() == 0 || is_white(rest[0]),
    ensures
        word_length(word + rest) == word.len(),
    decreases word.len(),
{
    let s = word + rest;
    if word.len() > 0 {
        assert(!is_white(word[0]));
        let tail = word.skip(1);
        assert forall|i: int| 0 <= i < tail.len() implies !is_white(#[trigger] tail[i]) by {
            assert(tail[i] == word[i + 1]);
        }
        lemma_word_length(tail, rest);
        assert(s.skip(1) =~= tail + rest);
    } else {
        assert(s =~= rest);
    }
}

/// A character is replaced wherever it stands, and no other.
pub proof fn replacing_touches_one_character(s: Seq<char>, from: char, to: char, i: int)
    requires
        0 <= i < s.len(),
    ensures
        replaced(s, from, to).len() == s.len(),
        s[i] == from ==> replaced(s, from, to)[i] == to,
        s[i] != from ==> replaced(s, from, to)[i] == s[i],
{
}

} // verus!
