//! Unix paths as texts.

use vstd::prelude::*;
use vstd::string::*;

use crate::text::{chars_of, starts};

verus! {

/// Whether a path starts at the root.
pub open spec fn is_absolute_path(p: Seq<char>) -> bool {
    p.len() > 0 && p[0] == '/'
}

/// `base` with `part` under it. An absolute `part` stands for itself.
pub open spec fn joined_path(base: Seq<char>, part: Seq<char>) -> Seq<char> {
    if is_absolute_path(part) || base.len() == 0 {
        part
    } else if base.last() == '/' {
        base + part
    } else {
        base + "/"@ + part
    }
}

/// Whether a path starts at the root.
pub fn is_absolute(p: &str) -> (r: bool)
    ensures
        r == is_absolute_path(p@),
{
    let v: Vec<char> = chars_of(p);
    v.len() > 0 && v[0] == '/'
}

/// `base` with `part` under it.
pub fn join_path(base: &str, part: &str) -> (r: String)
    ensures
        r@ == joined_path(base@, part@),
{
    let b: Vec<char> = chars_of(base);
    if is_absolute(part) || b.len() == 0 {
        return part.to_string();
    }
    let mut out: String = base.to_string();
    if b[b.len() - 1] != '/' {
        out.append("/");
    }
    out.append(part);
    out
}

/// A relative part stays under its base.
pub proof fn relative_part_stays_under_base(base: Seq<char>, part: Seq<char>)
    requires
        !is_absolute_path(part),
    ensures
        starts(joined_path(base, part), base),
        is_absolute_path(base) ==> is_absolute_path(joined_path(base, part)),
{
    assert(joined_path(base, part).take(base.len() as int) =~= base);
}

/// An absolute part stands for itself, and so does any part of an empty base; otherwise one slash
/// stands between base and part.
pub proof fn one_slash_joins_base_and_part(base: Seq<char>, part: Seq<char>)
    ensures
        part.len() > 0 && part[0] == '/' ==> joined_path(base, part) == part,
        base.len() == 0 ==> joined_path(base, part) == part,
        base.len() > 0 && base.last() == '/' && !(part.len() > 0 && part[0] == '/') ==> joined_path(
            base,
            part,
        ) == base + part,
        base.len() > 0 && base.last() != '/' && !(part.len() > 0 && part[0] == '/') ==> joined_path(
            base,
            part,
        ) == base + seq!['/'] + part,
{
    reveal_strlit("/");
    assert("/"@ =~= seq!['/']);
    assert(base.len() == 0 ==> joined_path(base, part) =~= part);
    assert(base + seq!['/'] + part =~= base + "/"@ + part);
}

} // verus!
