//! JSON values: what reports are made of, and what the server's answers are read from.

use vstd::prelude::*;

use crate::text::{same_text, text_option, texts};

verus! {

/// A JSON value. The fields of an object have different names.
#[derive(Debug, PartialEq, Eq)]
pub enum Json {
    Null,
    Bool(bool),
    /// An integer that is not negative.
    Unsigned(u64),
    /// A negative integer.
    Negative(i64),
    /// Any other number: as `serde_json` prints it where it was read, as it was given elsewhere.
    Real(String),
    Text(String),
    List(Vec<Json>),
    Object(Vec<(String, Json)>),
}

// ── Reading and writing ──────────────────────────────────────────────────────

#[verifier::external_type_specification]
#[verifier::external_body]
pub struct ExValue(serde_json::Value);

#[verifier::external_type_specification]
#[verifier::external_body]
pub struct ExNumber(serde_json::Number);

/// What `serde_json::from_str` reads from a text; `None` where the text is not JSON.
pub uninterp spec fn json_in(text: Seq<char>) -> Option<Json>;

/// What `serde_json::from_slice` reads from bytes, or the text of its error.
pub uninterp spec fn json_read(bytes: Seq<u8>) -> Result<Json, Seq<char>>;

/// What `serde_json::to_string` writes for a value.
pub uninterp spec fn json_text(value: Json) -> Seq<char>;

/// What `serde_json::to_string_pretty` writes for a value.
pub uninterp spec fn json_pretty(value: Json) -> Seq<char>;

/// A `serde_json::Number`, by its own accessors `as_u64` and `as_i64`, and as it is written.
#[verifier::external_body]
fn from_number(n: serde_json::Number) -> Json {
    match (n.as_u64(), n.as_i64()) {
        (Some(u), _) => Json::Unsigned(u),
        (None, Some(i)) => Json::Negative(i),
        (None, None) => Json::Real(n.to_string()),
    }
}

/// A `serde_json::Value`, variant by variant.
#[verifier::external_body]
fn from_value(value: serde_json::Value) -> Json {
    match value {
        serde_json::Value::Null => Json::Null,
        serde_json::Value::Bool(b) => Json::Bool(b),
        serde_json::Value::Number(n) => from_number(n),
        serde_json::Value::String(s) => Json::Text(s),
        serde_json::Value::Array(v) => Json::List(v.into_iter().map(from_value).collect()),
        serde_json::Value::Object(m) => {
            Json::Object(m.into_iter().map(|(k, v)| (k, from_value(v))).collect())
        },
    }
}

/// The `serde_json::Value` of a value, variant by variant. A number that `serde_json` cannot read
/// becomes null.
#[verifier::external_body]
fn to_value(value: &Json) -> serde_json::Value {
    match value {
        Json::Null => serde_json::Value::Null,
        Json::Bool(b) => serde_json::Value::Bool(*b),
        Json::Unsigned(u) => serde_json::Value::from(*u),
        Json::Negative(i) => serde_json::Value::from(*i),
        Json::Real(s) => s.parse().map_or(serde_json::Value::Null, serde_json::Value::Number),
        Json::Text(s) => serde_json::Value::String(s.clone()),
        Json::List(v) => serde_json::Value::Array(v.iter().map(to_value).collect()),
        Json::Object(m) => {
            serde_json::Value::Object(m.iter().map(|f| (f.0.clone(), to_value(&f.1))).collect())
        },
    }
}

/// `serde_json::from_str`: the value depends on the text alone.
#[verifier::external_body]
pub(crate) fn parse_json(text: &str) -> (r: Option<Json>)
    ensures
        r == json_in(text@),
{
    serde_json::from_str::<serde_json::Value>(text).ok().map(from_value)
}

/// `serde_json::from_slice`: the value, or the text of the error, depends on the bytes alone. No
/// bytes at all are an error.
#[verifier::external_body]
pub(crate) fn parse_bytes(bytes: &[u8]) -> (r: Result<Json, String>)
    ensures
        reading(r) == json_read(bytes@),
        bytes@.len() == 0 ==> r is Err,
{
    serde_json::from_slice::<serde_json::Value>(bytes).map(from_value).map_err(|e| e.to_string())
}

/// `serde_json::to_string`: the text depends on the value alone.
#[verifier::external_body]
pub(crate) fn print_json(value: &Json) -> (r: String)
    ensures
        r@ == json_text(*value),
{
    to_value(value).to_string()
}

/// `serde_json::to_string_pretty`: the text depends on the value alone.
#[verifier::external_body]
fn print_pretty(value: &Json) -> (r: String)
    ensures
        r@ == json_pretty(*value),
{
    serde_json::to_string_pretty(&to_value(value)).unwrap_or_default()
}

/// A reading, its error by its characters.
pub open spec fn reading(r: Result<Json, String>) -> Result<Json, Seq<char>> {
    match r {
        Ok(value) => Ok(value),
        Err(error) => Err(error@),
    }
}

impl Json {
    /// The value as it stands in a message, a request or a line of a report.
    pub fn shown(&self) -> (r: String)
        ensures
            r@ == json_text(*self),
    {
        print_json(self)
    }

    /// The value as it stands in a file of its own, over several lines.
    pub fn pretty(&self) -> (r: String)
        ensures
            r@ == json_pretty(*self),
    {
        print_pretty(self)
    }
}

// ── Looking inside ───────────────────────────────────────────────────────────

/// The field of a name among the fields of an object.
pub open spec fn field_in(fields: Seq<(String, Json)>, name: Seq<char>) -> Option<Json>
    decreases fields.len(),
{
    if fields.len() == 0 {
        None
    } else if fields[0].0@ == name {
        Some(fields[0].1)
    } else {
        field_in(fields.skip(1), name)
    }
}

/// What an optional reference points to.
pub open spec fn pointee(r: Option<&Json>) -> Option<Json> {
    match r {
        Some(j) => Some(*j),
        None => None,
    }
}

impl Json {
    /// The field of a name. There is none where the value is not an object.
    pub open spec fn field(self, name: Seq<char>) -> Option<Json> {
        match self {
            Json::Object(fields) => field_in(fields@, name),
            _ => None,
        }
    }

    /// The characters of a text.
    pub open spec fn as_text(self) -> Option<Seq<char>> {
        match self {
            Json::Text(s) => Some(s@),
            _ => None,
        }
    }

    /// The items of a list.
    pub open spec fn as_list(self) -> Option<Seq<Json>> {
        match self {
            Json::List(v) => Some(v@),
            _ => None,
        }
    }

    /// The field of a name where it is a text.
    pub open spec fn text_field(self, name: Seq<char>) -> Option<Seq<char>> {
        match self.field(name) {
            Some(j) => j.as_text(),
            None => None,
        }
    }

    /// The field of a name where it is an integer that is not negative.
    pub open spec fn u64_field(self, name: Seq<char>) -> Option<u64> {
        match self.field(name) {
            Some(Json::Unsigned(n)) => Some(n),
            _ => None,
        }
    }

    /// The field of a name where it is a boolean.
    pub open spec fn bool_field(self, name: Seq<char>) -> Option<bool> {
        match self.field(name) {
            Some(Json::Bool(b)) => Some(b),
            _ => None,
        }
    }

    /// The items of the field of a name where it is a list.
    pub open spec fn list_field(self, name: Seq<char>) -> Option<Seq<Json>> {
        match self.field(name) {
            Some(j) => j.as_list(),
            None => None,
        }
    }

    /// Whether the field of a name is missing or null.
    pub open spec fn lacks(self, name: Seq<char>) -> bool {
        match self.field(name) {
            Some(Json::Null) => true,
            Some(_) => false,
            None => true,
        }
    }

    /// Whether the field of a name is this text.
    pub open spec fn has_text(self, name: Seq<char>, text: Seq<char>) -> bool {
        self.text_field(name) == Some(text)
    }

    /// The field of a name.
    pub fn get(&self, name: &str) -> (r: Option<&Json>)
        ensures
            pointee(r) == self.field(name@),
    {
        match self {
            Json::Object(fields) => find_in(fields, name),
            _ => None,
        }
    }

    /// The text of the value, where it is one.
    pub fn text(&self) -> (r: Option<&str>)
        ensures
            match r {
                Some(s) => self.as_text() == Some(s@),
                None => self.as_text() is None,
            },
    {
        match self {
            Json::Text(s) => Some(s.as_str()),
            _ => None,
        }
    }

    /// The text of the field of a name.
    pub fn get_text(&self, name: &str) -> (r: Option<&str>)
        ensures
            match r {
                Some(s) => self.text_field(name@) == Some(s@),
                None => self.text_field(name@) is None,
            },
    {
        match self.get(name) {
            Some(j) => j.text(),
            None => None,
        }
    }

    /// The integer of the field of a name.
    pub fn get_u64(&self, name: &str) -> (r: Option<u64>)
        ensures
            r == self.u64_field(name@),
    {
        match self.get(name) {
            Some(Json::Unsigned(n)) => Some(*n),
            _ => None,
        }
    }

    /// The boolean of the field of a name.
    pub fn get_bool(&self, name: &str) -> (r: Option<bool>)
        ensures
            r == self.bool_field(name@),
    {
        match self.get(name) {
            Some(Json::Bool(b)) => Some(*b),
            _ => None,
        }
    }

    /// The items of the field of a name.
    pub fn get_list(&self, name: &str) -> (r: Option<&Vec<Json>>)
        ensures
            match r {
                Some(v) => self.list_field(name@) == Some(v@),
                None => self.list_field(name@) is None,
            },
    {
        match self.get(name) {
            Some(Json::List(v)) => Some(v),
            _ => None,
        }
    }

    /// Whether the field of a name is missing or null.
    pub fn is_absent(&self, name: &str) -> (r: bool)
        ensures
            r == self.lacks(name@),
    {
        match self.get(name) {
            Some(Json::Null) => true,
            Some(_) => false,
            None => true,
        }
    }

    /// Whether the field of a name is this text.
    pub fn text_is(&self, name: &str, text: &str) -> (r: bool)
        ensures
            r == self.has_text(name@, text@),
    {
        match self.get_text(name) {
            Some(s) => same_text(s, text),
            None => false,
        }
    }
}

// ── Comparing ────────────────────────────────────────────────────────────────

/// Whether two values say the same: the same kind, the same characters, and for lists and objects
/// the same items in the same order.
pub open spec fn same_json(a: Json, b: Json) -> bool
    decreases a,
{
    match (a, b) {
        (Json::Null, Json::Null) => true,
        (Json::Bool(x), Json::Bool(y)) => x == y,
        (Json::Unsigned(x), Json::Unsigned(y)) => x == y,
        (Json::Negative(x), Json::Negative(y)) => x == y,
        (Json::Real(x), Json::Real(y)) => x@ == y@,
        (Json::Text(x), Json::Text(y)) => x@ == y@,
        (Json::List(x), Json::List(y)) => x@.len() == y@.len() && forall|i: int|
            0 <= i < x@.len() ==> same_json(#[trigger] x@[i], y@[i]),
        (Json::Object(x), Json::Object(y)) => x@.len() == y@.len() && forall|i: int|
            0 <= i < x@.len() ==> (#[trigger] x@[i]).0@ == y@[i].0@ && same_json(
                x@[i].1,
                y@[i].1,
            ),
        _ => false,
    }
}

/// Whether the text of a number is one of the two of zero.
pub open spec fn is_real_zero(s: Seq<char>) -> bool {
    s == "0.0"@ || s == "-0.0"@
}

/// Whether two texts are of the same number: zero has two, any other number has one.
pub open spec fn same_real(a: Seq<char>, b: Seq<char>) -> bool {
    a == b || is_real_zero(a) && is_real_zero(b)
}

fn real_zero(s: &str) -> (r: bool)
    ensures
        r == is_real_zero(s@),
{
    same_text(s, "0.0") || same_text(s, "-0.0")
}

/// Whether two values are equal: as [`same_json`] has it, but whatever the order of the fields of an
/// object, and the sign of a zero.
pub open spec fn equal_json(a: Json, b: Json) -> bool
    decreases a,
{
    match (a, b) {
        (Json::Null, Json::Null) => true,
        (Json::Bool(x), Json::Bool(y)) => x == y,
        (Json::Unsigned(x), Json::Unsigned(y)) => x == y,
        (Json::Negative(x), Json::Negative(y)) => x == y,
        (Json::Real(x), Json::Real(y)) => same_real(x@, y@),
        (Json::Text(x), Json::Text(y)) => x@ == y@,
        (Json::List(x), Json::List(y)) => x@.len() == y@.len() && forall|i: int|
            0 <= i < x@.len() ==> equal_json(#[trigger] x@[i], y@[i]),
        (Json::Object(x), Json::Object(y)) => x@.len() == y@.len() && forall|i: int|
            0 <= i < x@.len() ==> (field_in(y@, (#[trigger] x@[i]).0@) matches Some(j)
                && equal_json(x@[i].1, j)),
        _ => false,
    }
}

fn find_in<'a>(fields: &'a Vec<(String, Json)>, name: &str) -> (r: Option<&'a Json>)
    ensures
        pointee(r) == field_in(fields@, name@),
{
    let mut i: usize = 0;
    assert(fields@.skip(0) =~= fields@);
    while i < fields.len()
        invariant
            i <= fields@.len(),
            field_in(fields@, name@) == field_in(fields@.skip(i as int), name@),
        decreases fields@.len() - i,
    {
        assert(fields@.skip(i as int)[0] == fields@[i as int]);
        assert(fields@.skip(i as int).skip(1) =~= fields@.skip(i + 1));
        if same_text(fields[i].0.as_str(), name) {
            return Some(&fields[i].1);
        }
        i += 1;
    }
    None
}

/// Whether two values are equal.
pub fn json_equal(a: &Json, b: &Json) -> (r: bool)
    ensures
        r == equal_json(*a, *b),
    decreases a,
{
    match (a, b) {
        (Json::Null, Json::Null) => true,
        (Json::Bool(x), Json::Bool(y)) => *x == *y,
        (Json::Unsigned(x), Json::Unsigned(y)) => *x == *y,
        (Json::Negative(x), Json::Negative(y)) => *x == *y,
        (Json::Real(x), Json::Real(y)) => same_text(x.as_str(), y.as_str()) || real_zero(x.as_str())
            && real_zero(y.as_str()),
        (Json::Text(x), Json::Text(y)) => same_text(x.as_str(), y.as_str()),
        (Json::List(x), Json::List(y)) => {
            if x.len() != y.len() {
                return false;
            }
            let mut i: usize = 0;
            while i < x.len()
                invariant
                    i <= x@.len(),
                    x@.len() == y@.len(),
                    *a == Json::List(*x),
                    *b == Json::List(*y),
                    forall|k: int| 0 <= k < i ==> equal_json(#[trigger] x@[k], y@[k]),
                decreases x@.len() - i,
            {
                proof {
                    assert(decreases_to!(*a => a->List_0));
                    assert(decreases_to!(*x => x[i as int]));
                }
                if !json_equal(&x[i], &y[i]) {
                    assert(!equal_json(x@[i as int], y@[i as int]));
                    return false;
                }
                i += 1;
            }
            true
        },
        (Json::Object(x), Json::Object(y)) => {
            if x.len() != y.len() {
                return false;
            }
            let mut i: usize = 0;
            while i < x.len()
                invariant
                    i <= x@.len(),
                    x@.len() == y@.len(),
                    *a == Json::Object(*x),
                    *b == Json::Object(*y),
                    forall|k: int|
                        0 <= k < i ==> (field_in(y@, (#[trigger] x@[k]).0@) matches Some(j)
                            && equal_json(x@[k].1, j)),
                decreases x@.len() - i,
            {
                proof {
                    assert(decreases_to!(*a => a->Object_0));
                    assert(decreases_to!(*x => x[i as int]));
                    assert(decreases_to!(x[i as int] => x[i as int].1));
                }
                let found: bool = match find_in(y, x[i].0.as_str()) {
                    Some(j) => json_equal(&x[i].1, j),
                    None => false,
                };
                if !found {
                    assert(!(field_in(y@, x@[i as int].0@) matches Some(j) && equal_json(
                        x@[i as int].1,
                        j,
                    )));
                    return false;
                }
                i += 1;
            }
            true
        },
        _ => false,
    }
}

// ── Copying ──────────────────────────────────────────────────────────────────

impl Json {
    /// The field of a name, or null.
    pub open spec fn field_or_null(self, name: Seq<char>) -> Json {
        match self.field(name) {
            Some(j) => j,
            None => Json::Null,
        }
    }

    /// A value that says the same.
    pub fn duplicate(&self) -> (r: Json)
        ensures
            same_json(r, *self),
            same_json(*self, r),
        decreases self,
    {
        match self {
            Json::Null => Json::Null,
            Json::Bool(b) => Json::Bool(*b),
            Json::Unsigned(n) => Json::Unsigned(*n),
            Json::Negative(n) => Json::Negative(*n),
            Json::Real(s) => Json::Real(s.clone()),
            Json::Text(s) => Json::Text(s.clone()),
            Json::List(v) => {
                let mut out: Vec<Json> = Vec::new();
                let mut i: usize = 0;
                while i < v.len()
                    invariant
                        i <= v@.len(),
                        *self == Json::List(*v),
                        out@.len() == i,
                        forall|k: int|
                            0 <= k < i ==> same_json(#[trigger] out@[k], v@[k]) && same_json(
                                v@[k],
                                out@[k],
                            ),
                    decreases v@.len() - i,
                {
                    proof {
                        assert(decreases_to!(*self => self->List_0));
                        assert(decreases_to!(*v => v[i as int]));
                    }
                    out.push(v[i].duplicate());
                    i += 1;
                }
                Json::List(out)
            },
            Json::Object(v) => {
                let mut out: Vec<(String, Json)> = Vec::new();
                let mut i: usize = 0;
                while i < v.len()
                    invariant
                        i <= v@.len(),
                        *self == Json::Object(*v),
                        out@.len() == i,
                        forall|k: int|
                            0 <= k < i ==> (#[trigger] out@[k]).0@ == v@[k].0@ && same_json(
                                out@[k].1,
                                v@[k].1,
                            ) && same_json(v@[k].1, out@[k].1),
                    decreases v@.len() - i,
                {
                    proof {
                        assert(decreases_to!(*self => self->Object_0));
                        assert(decreases_to!(*v => v[i as int]));
                        assert(decreases_to!(v[i as int] => v[i as int].1));
                    }
                    out.push((v[i].0.clone(), v[i].1.duplicate()));
                    i += 1;
                }
                Json::Object(out)
            },
        }
    }

    /// A copy of the field of a name, or null.
    pub fn copy_field(&self, name: &str) -> (r: Json)
        ensures
            same_json(r, self.field_or_null(name@)),
            same_json(self.field_or_null(name@), r),
    {
        match self.get(name) {
            Some(j) => j.duplicate(),
            None => Json::Null,
        }
    }
}

// ── Making objects ───────────────────────────────────────────────────────────

/// Whether a field has the given name and text.
pub open spec fn is_text(item: (String, Json), name: Seq<char>, text: Seq<char>) -> bool {
    item.0@ == name && item.1.as_text() == Some(text)
}

/// Whether a field has the given name, and the text where there is one.
pub open spec fn is_text_or_null(item: (String, Json), name: Seq<char>, text: Option<Seq<char>>) -> bool {
    item.0@ == name && match text {
        Some(t) => item.1.as_text() == Some(t),
        None => item.1 == Json::Null,
    }
}

/// Whether a field has the given name and texts.
pub open spec fn is_texts(item: (String, Json), name: Seq<char>, all: Seq<Seq<char>>) -> bool {
    item.0@ == name && (item.1.as_list() matches Some(list) && list.len() == all.len() && forall|
        i: int,
    |
        0 <= i < all.len() ==> (#[trigger] list[i]).as_text() == Some(all[i]))
}

/// Whether a field has the given name and whole number.
pub open spec fn is_whole(item: (String, Json), name: Seq<char>, n: int) -> bool {
    item.0@ == name && match item.1 {
        Json::Unsigned(u) => u == n,
        Json::Negative(i) => i == n && n < 0,
        _ => false,
    }
}

pub fn text_item(name: &str, text: &str) -> (r: (String, Json))
    ensures
        is_text(r, name@, text@),
{
    (name.to_string(), Json::Text(text.to_string()))
}

pub fn text_or_null_item(name: &str, text: &Option<String>) -> (r: (String, Json))
    ensures
        is_text_or_null(r, name@, text_option(*text)),
{
    match text {
        Some(t) => (name.to_string(), Json::Text(t.clone())),
        None => (name.to_string(), Json::Null),
    }
}

pub fn texts_item(name: &str, all: &Vec<String>) -> (r: (String, Json))
    ensures
        is_texts(r, name@, texts(all@)),
{
    let mut out: Vec<Json> = Vec::new();
    let mut i: usize = 0;
    while i < all.len()
        invariant
            i <= all@.len(),
            out@.len() == i,
            forall|k: int| 0 <= k < i ==> (#[trigger] out@[k]).as_text() == Some(all@[k]@),
        decreases all@.len() - i,
    {
        out.push(Json::Text(all[i].clone()));
        i += 1;
    }
    (name.to_string(), Json::List(out))
}

pub fn whole_item(name: &str, n: i64) -> (r: (String, Json))
    ensures
        is_whole(r, name@, n as int),
{
    if n < 0 {
        (name.to_string(), Json::Negative(n))
    } else {
        (name.to_string(), Json::Unsigned(n as u64))
    }
}

// ── Laws ─────────────────────────────────────────────────────────────────────

/// Plain values are equal exactly when they are of one kind and say the same; a number that is no
/// integer is never equal to one that is.
pub proof fn plain_values_are_equal_by_what_they_say(
    a: bool,
    b: bool,
    m: u64,
    n: u64,
    i: i64,
    j: i64,
    s: String,
    t: String,
)
    ensures
        equal_json(Json::Null, Json::Null),
        equal_json(Json::Bool(a), Json::Bool(b)) <==> a == b,
        equal_json(Json::Unsigned(m), Json::Unsigned(n)) <==> m == n,
        equal_json(Json::Negative(i), Json::Negative(j)) <==> i == j,
        equal_json(Json::Text(s), Json::Text(t)) <==> s@ == t@,
        equal_json(Json::Real(s), Json::Real(t)) <==> s@ == t@ || ((s@ == "0.0"@ || s@ == "-0.0"@)
            && (t@ == "0.0"@ || t@ == "-0.0"@)),
        !equal_json(Json::Text(s), Json::Unsigned(n)) && !equal_json(
            Json::Unsigned(n),
            Json::Text(s),
        ),
        !equal_json(Json::Real(s), Json::Unsigned(n)) && !equal_json(
            Json::Unsigned(n),
            Json::Real(s),
        ),
        !equal_json(Json::Null, Json::Text(s)) && !equal_json(Json::Text(s), Json::Null),
        !equal_json(Json::Null, Json::Unsigned(n)) && !equal_json(Json::Unsigned(n), Json::Null),
        !equal_json(Json::Null, Json::Bool(a)) && !equal_json(Json::Bool(a), Json::Null),
{
}

/// Lists are equal item by item; objects are equal where they have as many fields, and each field of
/// the one is found in the other with an equal value.
pub proof fn compound_values_are_equal_part_by_part(
    x: Vec<Json>,
    y: Vec<Json>,
    f: Vec<(String, Json)>,
    g: Vec<(String, Json)>,
)
    ensures
        equal_json(Json::List(x), Json::List(y)) <==> x@.len() == y@.len() && forall|i: int|
            0 <= i < x@.len() ==> equal_json(#[trigger] x@[i], y@[i]),
        equal_json(Json::Object(f), Json::Object(g)) <==> f@.len() == g@.len() && forall|i: int|
            0 <= i < f@.len() ==> (#[trigger] Json::Object(g).field(f@[i].0@)) is Some && equal_json(
                f@[i].1,
                Json::Object(g).field(f@[i].0@)->0,
            ),
{
    if equal_json(Json::Object(f), Json::Object(g)) {
        assert forall|i: int| 0 <= i < f@.len() implies (#[trigger] Json::Object(g).field(
            f@[i].0@,
        )) is Some && equal_json(f@[i].1, Json::Object(g).field(f@[i].0@)->0) by {
            assert(field_in(g@, f@[i].0@) matches Some(j) && equal_json(f@[i].1, j));
        }
    }
    if f@.len() == g@.len() && forall|i: int|
        0 <= i < f@.len() ==> (#[trigger] Json::Object(g).field(f@[i].0@)) is Some && equal_json(
            f@[i].1,
            Json::Object(g).field(f@[i].0@)->0,
        ) {
        assert forall|i: int| 0 <= i < f@.len() implies (field_in(
            g@,
            (#[trigger] f@[i]).0@,
        ) matches Some(j) && equal_json(f@[i].1, j)) by {
            assert(Json::Object(g).field(f@[i].0@) is Some);
        }
    }
}

/// The field of a name is the first one that has it, and there is none only where none has it.
pub proof fn fields_are_found_by_their_names(fields: Seq<(String, Json)>, name: Seq<char>)
    ensures
        match field_in(fields, name) {
            Some(value) => exists|i: int|
                0 <= i < fields.len() && (#[trigger] fields[i]).0@ == name && fields[i].1 == value
                    && forall|k: int| 0 <= k < i ==> (#[trigger] fields[k]).0@ != name,
            None => forall|i: int| 0 <= i < fields.len() ==> (#[trigger] fields[i]).0@ != name,
        },
    decreases fields.len(),
{
    if fields.len() > 0 {
        let rest = fields.skip(1);
        fields_are_found_by_their_names(rest, name);
        if fields[0].0@ == name {
            assert(fields[0].0@ == name);
        } else {
            match field_in(rest, name) {
                Some(value) => {
                    let i = choose|i: int|
                        0 <= i < rest.len() && (#[trigger] rest[i]).0@ == name && rest[i].1 == value
                            && forall|k: int| 0 <= k < i ==> (#[trigger] rest[k]).0@ != name;
                    assert(fields[i + 1] == rest[i]);
                    assert forall|k: int| 0 <= k < i + 1 implies (#[trigger] fields[k]).0@
                        != name by {
                        if k > 0 {
                            assert(rest[k - 1] == fields[k]);
                        }
                    }
                },
                None => {
                    assert forall|i: int| 0 <= i < fields.len() implies (#[trigger] fields[i]).0@
                        != name by {
                        if i > 0 {
                            assert(rest[i - 1] == fields[i]);
                        }
                    }
                },
            }
        }
    }
}

/// Only an object has fields; a missing field reads as null, as does one that is null.
pub proof fn only_objects_have_fields(j: Json, name: Seq<char>)
    ensures
        !(j is Object) ==> j.field(name) is None,
        j.field(name) is None ==> j.field_or_null(name) == Json::Null && j.lacks(name)
            && j.text_field(name) is None && j.u64_field(name) is None && j.bool_field(name) is None
            && j.list_field(name) is None,
        j.field(name) matches Some(v) ==> {
            &&& j.field_or_null(name) == v
            &&& v is Text ==> j.text_field(name) == Some(v->Text_0@) && !j.lacks(name)
            &&& v is Unsigned ==> j.u64_field(name) == Some(v->Unsigned_0) && !j.lacks(name)
            &&& v is Bool ==> j.bool_field(name) == Some(v->Bool_0) && !j.lacks(name)
            &&& v is List ==> j.list_field(name) == Some(v->List_0@) && !j.lacks(name)
            &&& !(v is Text) ==> j.text_field(name) is None
            &&& !(v is Unsigned) ==> j.u64_field(name) is None
            &&& !(v is Bool) ==> j.bool_field(name) is None
            &&& !(v is List) ==> j.list_field(name) is None
            &&& j.lacks(name) <==> v == Json::Null
        },
{
}

} // verus!
