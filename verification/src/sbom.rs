//! The software bill of materials that is kept in the repository.
//!
//! It is written anew only where it says something new: the time at which it was made does not
//! count.

use vstd::prelude::*;

use crate::json::{equal_json, field_in, json_equal, json_in, parse_json, same_json, Json};
use crate::text::same_text;

verus! {

/// The fields without the first one of a name.
pub open spec fn without(fields: Seq<(String, Json)>, name: Seq<char>) -> Seq<(String, Json)>
    decreases fields.len(),
{
    if fields.len() == 0 {
        fields
    } else if fields[0].0@ == name {
        fields.skip(1)
    } else {
        seq![fields[0]] + without(fields.skip(1), name)
    }
}

/// The position of the first field of a name, or how many fields there are.
pub open spec fn place_of(fields: Seq<(String, Json)>, name: Seq<char>) -> int
    decreases fields.len(),
{
    if fields.len() == 0 || fields[0].0@ == name {
        0
    } else {
        1 + place_of(fields.skip(1), name)
    }
}

proof fn lemma_place_of(fields: Seq<(String, Json)>, name: Seq<char>, at: int)
    requires
        0 <= at <= fields.len(),
        at < fields.len() ==> fields[at].0@ == name,
        forall|i: int| 0 <= i < at ==> (#[trigger] fields[i]).0@ != name,
    ensures
        place_of(fields, name) == at,
        at < fields.len() ==> without(fields, name) == fields.remove(at),
        at == fields.len() ==> without(fields, name) == fields,
    decreases fields.len(),
{
    if fields.len() > 0 && fields[0].0@ != name {
        assert forall|i: int| 0 <= i < at - 1 implies (#[trigger] fields.skip(1)[i]).0@ != name by {
            assert(fields.skip(1)[i] == fields[i + 1]);
        }
        lemma_place_of(fields.skip(1), name, at - 1);
        if at < fields.len() {
            assert(without(fields, name) =~= fields.remove(at));
        } else {
            assert(without(fields, name) =~= fields);
        }
    } else if fields.len() > 0 {
        assert(fields.skip(1) =~= fields.remove(0));
    }
}

fn find_field(fields: &Vec<(String, Json)>, name: &str) -> (r: usize)
    ensures
        r == place_of(fields@, name@),
        r <= fields@.len(),
        r < fields@.len() ==> without(fields@, name@) == fields@.remove(r as int),
        r == fields@.len() ==> without(fields@, name@) == fields@,
{
    let mut i: usize = 0;
    while i < fields.len()
        invariant
            i <= fields@.len(),
            forall|k: int| 0 <= k < i ==> (#[trigger] fields@[k]).0@ != name@,
        decreases fields@.len() - i,
    {
        if same_text(fields[i].0.as_str(), name) {
            proof {
                lemma_place_of(fields@, name@, i as int);
            }
            return i;
        }
        i += 1;
    }
    proof {
        lemma_place_of(fields@, name@, i as int);
    }
    i
}

/// Whether `after` is `before` without the time stamp in its metadata, and otherwise unchanged.
pub open spec fn timestamp_removed(before: Json, after: Json) -> bool {
    match (before, after) {
        (Json::Object(b), Json::Object(a)) => {
            let at = place_of(b@, "metadata"@);
            &&& a@.len() == b@.len()
            &&& forall|i: int|
                0 <= i < b@.len() && i != at ==> #[trigger] a@[i] == b@[i]
            &&& at < b@.len() ==> a@[at].0 == b@[at].0 && match (b@[at].1, a@[at].1) {
                (Json::Object(m), Json::Object(n)) => n@ == without(m@, "timestamp"@),
                (x, y) => !(x is Object) && x == y,
            }
        },
        (b, a) => !(b is Object) && a == b,
    }
}

/// The bill without the time at which it was made.
pub fn normalize_sbom_for_repo_compare(sbom: Json) -> (r: Json)
    ensures
        timestamp_removed(sbom, r),
{
    match sbom {
        Json::Object(fields) => {
            let ghost before = fields@;
            let mut fields: Vec<(String, Json)> = fields;
            let at: usize = find_field(&fields, "metadata");
            if at < fields.len() {
                let (name, value) = fields.remove(at);
                let value: Json = match value {
                    Json::Object(metadata) => {
                        let mut metadata: Vec<(String, Json)> = metadata;
                        let stamp: usize = find_field(&metadata, "timestamp");
                        if stamp < metadata.len() {
                            let _gone: (String, Json) = metadata.remove(stamp);
                        }
                        Json::Object(metadata)
                    },
                    other => other,
                };
                fields.insert(at, (name, value));
            }
            Json::Object(fields)
        },
        other => other,
    }
}

/// What becomes of a bill that is to be written.
#[derive(Debug, PartialEq, Eq)]
pub enum SbomVerdict {
    /// The file says the same already.
    Unchanged,
    /// The file is to be written.
    Write,
}

/// Whether a bill has to be written, where the file holds a value that was read from it.
pub fn sbom_verdict(existing: Option<Json>, new: Json) -> (r: SbomVerdict)
    ensures
        r == SbomVerdict::Unchanged <==> existing is Some && exists|a: Json, b: Json|
            timestamp_removed(existing->0, a) && timestamp_removed(new, b) && #[trigger] equal_json(
                a,
                b,
            ),
{
    match existing {
        Some(old) => {
            let a: Json = normalize_sbom_for_repo_compare(old);
            let b: Json = normalize_sbom_for_repo_compare(new);
            proof {
                assert forall|c: Json, d: Json|
                    timestamp_removed(old, c) && timestamp_removed(new, d) && #[trigger] equal_json(
                        c,
                        d,
                    ) implies equal_json(a, b) by {
                    lemma_removed_alike(old, a, c);
                    lemma_removed_alike(new, d, b);
                    lemma_same_then_equal(a, c, d);
                    lemma_equal_then_same(a, d, b);
                }
            }
            if json_equal(&a, &b) {
                SbomVerdict::Unchanged
            } else {
                SbomVerdict::Write
            }
        },
        None => SbomVerdict::Write,
    }
}

/// Whether a bill has to be written over the text that the file holds; a file that is missing or
/// holds no JSON is written.
pub fn sbom_needs_writing(existing: Option<&str>, new: Json) -> (r: SbomVerdict)
    ensures
        existing is None ==> r == SbomVerdict::Write,
        existing matches Some(text) ==> (r == SbomVerdict::Unchanged <==> json_in(text@) is Some
            && exists|a: Json, b: Json|
            timestamp_removed(json_in(text@)->0, a) && timestamp_removed(new, b)
                && #[trigger] equal_json(a, b)),
{
    match existing {
        Some(text) => sbom_verdict(parse_json(text), new),
        None => SbomVerdict::Write,
    }
}

// ── Laws ─────────────────────────────────────────────────────────────────────

/// Saying the same is reflexive.
pub proof fn lemma_same_reflexive(a: Json)
    ensures
        same_json(a, a),
    decreases a,
{
    match a {
        Json::List(v) => {
            assert forall|i: int| 0 <= i < v@.len() implies same_json(#[trigger] v@[i], v@[i]) by {
                assert(decreases_to!(a => a->List_0));
                assert(decreases_to!(v => v[i]));
                lemma_same_reflexive(v@[i]);
            }
        },
        Json::Object(v) => {
            assert forall|i: int| 0 <= i < v@.len() implies same_json(
                (#[trigger] v@[i]).1,
                v@[i].1,
            ) by {
                assert(decreases_to!(a => a->Object_0));
                assert(decreases_to!(v => v[i]));
                assert(decreases_to!(v[i] => v[i].1));
                lemma_same_reflexive(v@[i].1);
            }
        },
        _ => {},
    }
}

/// Saying the same is symmetric.
pub proof fn lemma_same_symmetric(a: Json, b: Json)
    requires
        same_json(a, b),
    ensures
        same_json(b, a),
    decreases a,
{
    match (a, b) {
        (Json::List(x), Json::List(y)) => {
            assert forall|i: int| 0 <= i < y@.len() implies same_json(#[trigger] y@[i], x@[i]) by {
                assert(decreases_to!(a => a->List_0));
                assert(decreases_to!(x => x[i]));
                assert(same_json(x@[i], y@[i]));
                lemma_same_symmetric(x@[i], y@[i]);
            }
        },
        (Json::Object(x), Json::Object(y)) => {
            assert forall|i: int| 0 <= i < y@.len() implies (#[trigger] y@[i]).0@ == x@[i].0@
                && same_json(y@[i].1, x@[i].1) by {
                assert(decreases_to!(a => a->Object_0));
                assert(decreases_to!(x => x[i]));
                assert(decreases_to!(x[i] => x[i].1));
                assert(x@[i].0@ == y@[i].0@ && same_json(x@[i].1, y@[i].1));
                lemma_same_symmetric(x@[i].1, y@[i].1);
            }
        },
        _ => {},
    }
}

proof fn lemma_field_found(fields: Seq<(String, Json)>, name: Seq<char>) -> (k: int)
    requires
        field_in(fields, name) is Some,
    ensures
        0 <= k < fields.len(),
        fields[k].0@ == name,
        field_in(fields, name) == Some(fields[k].1),
        forall|i: int| 0 <= i < k ==> (#[trigger] fields[i]).0@ != name,
    decreases fields.len(),
{
    if fields[0].0@ == name {
        0
    } else {
        let k = lemma_field_found(fields.skip(1), name);
        assert(fields.skip(1)[k] == fields[k + 1]);
        assert forall|i: int| 0 <= i < k + 1 implies (#[trigger] fields[i]).0@ != name by {
            if i > 0 {
                assert(fields.skip(1)[i - 1] == fields[i]);
            }
        }
        k + 1
    }
}

proof fn lemma_field_at(fields: Seq<(String, Json)>, name: Seq<char>, k: int)
    requires
        0 <= k < fields.len(),
        fields[k].0@ == name,
        forall|i: int| 0 <= i < k ==> (#[trigger] fields[i]).0@ != name,
    ensures
        field_in(fields, name) == Some(fields[k].1),
    decreases fields.len(),
{
    if k > 0 {
        assert(fields[0].0@ != name);
        assert forall|i: int| 0 <= i < k - 1 implies (#[trigger] fields.skip(1)[i]).0@ != name by {
            assert(fields.skip(1)[i] == fields[i + 1]);
        }
        lemma_field_at(fields.skip(1), name, k - 1);
    }
}

/// What says the same as a value is equal to what the value is equal to.
proof fn lemma_same_then_equal(a: Json, b: Json, c: Json)
    requires
        same_json(a, b),
        equal_json(b, c),
    ensures
        equal_json(a, c),
    decreases a,
{
    match (a, b, c) {
        (Json::List(x), Json::List(y), Json::List(z)) => {
            assert forall|i: int| 0 <= i < x@.len() implies equal_json(#[trigger] x@[i], z@[i]) by {
                assert(decreases_to!(a => a->List_0));
                assert(decreases_to!(x => x[i]));
                assert(same_json(x@[i], y@[i]));
                assert(equal_json(y@[i], z@[i]));
                lemma_same_then_equal(x@[i], y@[i], z@[i]);
            }
        },
        (Json::Object(x), Json::Object(y), Json::Object(z)) => {
            assert forall|i: int| 0 <= i < x@.len() implies (field_in(
                z@,
                (#[trigger] x@[i]).0@,
            ) matches Some(j) && equal_json(x@[i].1, j)) by {
                assert(decreases_to!(a => a->Object_0));
                assert(decreases_to!(x => x[i]));
                assert(decreases_to!(x[i] => x[i].1));
                assert(x@[i].0@ == y@[i].0@ && same_json(x@[i].1, y@[i].1));
                assert(field_in(z@, y@[i].0@) matches Some(j) && equal_json(y@[i].1, j));
                lemma_same_then_equal(x@[i].1, y@[i].1, field_in(z@, y@[i].0@)->0);
            }
        },
        _ => {},
    }
}

/// What is equal to a value is equal to what says the same as the value.
pub proof fn lemma_equal_then_same(a: Json, b: Json, c: Json)
    requires
        equal_json(a, b),
        same_json(b, c),
    ensures
        equal_json(a, c),
    decreases a,
{
    match (a, b, c) {
        (Json::List(x), Json::List(y), Json::List(z)) => {
            assert forall|i: int| 0 <= i < x@.len() implies equal_json(#[trigger] x@[i], z@[i]) by {
                assert(decreases_to!(a => a->List_0));
                assert(decreases_to!(x => x[i]));
                assert(equal_json(x@[i], y@[i]));
                assert(same_json(y@[i], z@[i]));
                lemma_equal_then_same(x@[i], y@[i], z@[i]);
            }
        },
        (Json::Object(x), Json::Object(y), Json::Object(z)) => {
            assert forall|i: int| 0 <= i < x@.len() implies (field_in(
                z@,
                (#[trigger] x@[i]).0@,
            ) matches Some(j) && equal_json(x@[i].1, j)) by {
                assert(decreases_to!(a => a->Object_0));
                assert(decreases_to!(x => x[i]));
                assert(decreases_to!(x[i] => x[i].1));
                let name = x@[i].0@;
                assert(field_in(y@, name) matches Some(j) && equal_json(x@[i].1, j));
                let k = lemma_field_found(y@, name);
                assert(y@[k].0@ == z@[k].0@ && same_json(y@[k].1, z@[k].1));
                assert forall|m: int| 0 <= m < k implies (#[trigger] z@[m]).0@ != name by {
                    assert(y@[m].0@ == z@[m].0@);
                }
                lemma_field_at(z@, name, k);
                lemma_equal_then_same(x@[i].1, y@[k].1, z@[k].1);
            }
        },
        _ => {},
    }
}

/// Removing the time stamp has one outcome, as far as what it says goes.
proof fn lemma_removed_alike(before: Json, a: Json, b: Json)
    requires
        timestamp_removed(before, a),
        timestamp_removed(before, b),
    ensures
        same_json(a, b),
{
    match (before, a, b) {
        (Json::Object(f), Json::Object(x), Json::Object(y)) => {
            let at = place_of(f@, "metadata"@);
            assert forall|i: int| 0 <= i < x@.len() implies (#[trigger] x@[i]).0@ == y@[i].0@
                && same_json(x@[i].1, y@[i].1) by {
                if i != at {
                    assert(x@[i] == f@[i] && y@[i] == f@[i]);
                    lemma_same_reflexive(f@[i].1);
                } else {
                    match (x@[i].1, y@[i].1) {
                        (Json::Object(m), Json::Object(n)) => {
                            assert(m@ == n@);
                            assert forall|k: int| 0 <= k < m@.len() implies (
                            #[trigger] m@[k]).0@ == n@[k].0@ && same_json(m@[k].1, n@[k].1) by {
                                lemma_same_reflexive(m@[k].1);
                            }
                        },
                        (p, q) => {
                            assert(p == q);
                            lemma_same_reflexive(p);
                        },
                    }
                }
            }
        },
        _ => {
            lemma_same_reflexive(before);
        },
    }
}

/// A time stamp in the metadata does not count: with it or without it, in whatever place and of
/// whatever value, what is compared is the same.
pub proof fn timestamp_does_not_count(
    front: Seq<(String, Json)>,
    back: Seq<(String, Json)>,
    stamp: (String, Json),
)
    requires
        stamp.0@ == "timestamp"@,
        forall|i: int| 0 <= i < front.len() ==> (#[trigger] front[i]).0@ != "timestamp"@,
        forall|i: int| 0 <= i < back.len() ==> (#[trigger] back[i]).0@ != "timestamp"@,
    ensures
        without(front.push(stamp) + back, "timestamp"@) == without(front + back, "timestamp"@),
        without(front + back, "timestamp"@) == front + back,
{
    let with_stamp = front.push(stamp) + back;
    let plain = front + back;
    let k = front.len() as int;
    assert forall|i: int| 0 <= i < k implies (#[trigger] with_stamp[i]).0@ != "timestamp"@ by {
        assert(with_stamp[i] == front[i]);
    }
    assert(with_stamp[k] == stamp);
    lemma_place_of(with_stamp, "timestamp"@, k);
    assert(with_stamp.remove(k) =~= plain);
    assert forall|i: int| 0 <= i < plain.len() implies (#[trigger] plain[i]).0@
        != "timestamp"@ by {
        if i < k {
            assert(plain[i] == front[i]);
        } else {
            assert(plain[i] == back[i - k]);
        }
    }
    lemma_place_of(plain, "timestamp"@, plain.len() as int);
}

proof fn lemma_fields_alike(
    a: Seq<(String, Json)>,
    b: Seq<(String, Json)>,
    at: int,
    name: Seq<char>,
)
    requires
        a.len() == b.len(),
        forall|i: int| 0 <= i < a.len() ==> (#[trigger] a[i]).0@ == b[i].0@,
        forall|i: int| 0 <= i < a.len() && i != at ==> (#[trigger] a[i]).1 == b[i].1,
        0 <= at < a.len() ==> a[at].0@ != name,
    ensures
        field_in(a, name) == field_in(b, name),
    decreases a.len(),
{
    if a.len() > 0 {
        let (x, y) = (a.skip(1), b.skip(1));
        assert forall|i: int| 0 <= i < x.len() implies (#[trigger] x[i]).0@ == y[i].0@ by {
            assert(a[i + 1].0@ == b[i + 1].0@);
        }
        assert forall|i: int| 0 <= i < x.len() && i != at - 1 implies (#[trigger] x[i]).1
            == y[i].1 by {
            assert(a[i + 1].1 == b[i + 1].1);
        }
        assert(a[0].0@ == b[0].0@);
        lemma_fields_alike(x, y, at - 1, name);
    }
}

proof fn lemma_without_keeps(fields: Seq<(String, Json)>, gone: Seq<char>, name: Seq<char>)
    ensures
        name != gone ==> field_in(without(fields, gone), name) == field_in(fields, name),
        (forall|i: int, j: int|
            0 <= i < j < fields.len() && (#[trigger] fields[i]).0@ == gone ==> (
            #[trigger] fields[j]).0@ != gone) ==> field_in(without(fields, gone), gone) is None,
    decreases fields.len(),
{
    if fields.len() > 0 {
        let rest = fields.skip(1);
        lemma_without_keeps(rest, gone, name);
        let once = forall|i: int, j: int|
            0 <= i < j < fields.len() && (#[trigger] fields[i]).0@ == gone ==> (
            #[trigger] fields[j]).0@ != gone;
        if once {
            assert forall|i: int, j: int|
                0 <= i < j < rest.len() && (#[trigger] rest[i]).0@ == gone implies (
            #[trigger] rest[j]).0@ != gone by {
                assert(fields[i + 1] == rest[i] && fields[j + 1] == rest[j]);
            }
        }
        if fields[0].0@ == gone {
            if once {
                assert forall|i: int| 0 <= i < rest.len() implies (#[trigger] rest[i]).0@
                    != gone by {
                    assert(fields[i + 1] == rest[i]);
                    assert(fields[0].0@ == gone);
                }
                crate::json::fields_are_found_by_their_names(rest, gone);
            }
        } else {
            let kept = seq![fields[0]] + without(rest, gone);
            assert(kept[0] == fields[0]);
            assert(kept.skip(1) =~= without(rest, gone));
        }
    }
}

/// Of a bill that is compared, only the time stamp in its metadata is gone: every other field of it
/// is as it was, and so is every other field of its metadata.
pub proof fn only_the_timestamp_is_left_out(before: Json, after: Json, metadata: Json, name: Seq<char>)
    requires
        timestamp_removed(before, after),
        before.field("metadata"@) == Some(metadata),
    ensures
        after.field("metadata"@) is Some,
        name != "metadata"@ ==> after.field(name) == before.field(name),
        !(metadata is Object) ==> after.field("metadata"@) == Some(metadata),
        metadata is Object && name != "timestamp"@ ==> after.field("metadata"@)->0.field(name)
            == metadata.field(name),
        metadata is Object && (forall|i: int, j: int|
            0 <= i < j < metadata->Object_0@.len() && (#[trigger] metadata->Object_0@[i]).0@
                == "timestamp"@ ==> (#[trigger] metadata->Object_0@[j]).0@ != "timestamp"@)
            ==> after.field("metadata"@)->0.field("timestamp"@) is None,
{
    if let (Json::Object(b), Json::Object(a)) = (before, after) {
        let at = lemma_field_found(b@, "metadata"@);
        lemma_place_of(b@, "metadata"@, at);
        assert(a@[at].0 == b@[at].0);
        assert forall|i: int| 0 <= i < a@.len() implies (#[trigger] a@[i]).0@ == b@[i].0@ by {
            if i != at {
                assert(a@[i] == b@[i]);
            }
        }
        assert forall|i: int| 0 <= i < a@.len() && i != at implies (#[trigger] a@[i]).1
            == b@[i].1 by {
            assert(a@[i] == b@[i]);
        }
        assert forall|i: int| 0 <= i < at implies (#[trigger] a@[i]).0@ != "metadata"@ by {
            assert(a@[i] == b@[i]);
        }
        lemma_field_at(a@, "metadata"@, at);
        if name != "metadata"@ {
            lemma_fields_alike(a@, b@, at, name);
        }
        if let Json::Object(m) = b@[at].1 {
            lemma_without_keeps(m@, "timestamp"@, name);
            lemma_without_keeps(m@, "timestamp"@, "timestamp"@);
        }
    }
}

} // verus!
