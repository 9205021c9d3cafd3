//! Records: JSON objects that tell, field by field, what was found.

use vstd::prelude::*;

use crate::json::Json;
use crate::text::{text_option, texts};

verus! {

/// What a field of a record says.
pub enum Cell {
    Text(Seq<char>),
    Whole(int),
    /// A number as it is written.
    Number(Seq<char>),
    Flag(bool),
    Texts(Seq<Seq<char>>),
    /// Anything else, as it is.
    Value(Json),
}

/// What a value says.
pub open spec fn cell_of(j: Json) -> Cell {
    match j {
        Json::Text(s) => Cell::Text(s@),
        Json::Unsigned(n) => Cell::Whole(n as int),
        Json::Negative(n) => Cell::Whole(n as int),
        Json::Real(s) => Cell::Number(s@),
        Json::Bool(b) => Cell::Flag(b),
        Json::List(items) => if forall|i: int|
            0 <= i < items@.len() ==> (#[trigger] items@[i]).as_text() is Some {
            Cell::Texts(Seq::new(items@.len(), |i: int| items@[i].as_text()->Some_0))
        } else {
            Cell::Value(j)
        },
        _ => Cell::Value(j),
    }
}

/// A text, or null where there is none.
pub open spec fn text_cell(text: Option<Seq<char>>) -> Cell {
    match text {
        Some(t) => Cell::Text(t),
        None => Cell::Value(Json::Null),
    }
}

/// A whole number, or null where there is none.
pub open spec fn whole_cell(n: Option<u64>) -> Cell {
    match n {
        Some(n) => Cell::Whole(n as int),
        None => Cell::Value(Json::Null),
    }
}

/// A value, or null where there is none.
pub open spec fn value_cell(value: Option<Json>) -> Cell {
    match value {
        Some(j) => cell_of(j),
        None => Cell::Value(Json::Null),
    }
}

/// What fields say, each under its name.
pub open spec fn cells_of(fields: Seq<(String, Json)>) -> Seq<(Seq<char>, Cell)> {
    fields.map_values(|f: (String, Json)| (f.0@, cell_of(f.1)))
}

/// Whether a value is an object whose fields say this, in this order.
pub open spec fn is_record(j: Json, cells: Seq<(Seq<char>, Cell)>) -> bool {
    j matches Json::Object(fields) && cells_of(fields@) == cells
}

/// Whether a value is an object whose fields say this, in this order, and then has one more field
/// of a name, which is a record itself.
pub open spec fn is_record_with(
    j: Json,
    cells: Seq<(Seq<char>, Cell)>,
    name: Seq<char>,
    inner: Seq<(Seq<char>, Cell)>,
) -> bool {
    j matches Json::Object(fields) && fields@.len() > 0 && cells_of(fields@.drop_last()) == cells
        && fields@.last().0@ == name && is_record(fields@.last().1, inner)
}

/// A record in the making.
pub struct Record {
    fields: Vec<(String, Json)>,
}

impl View for Record {
    type V = Seq<(Seq<char>, Cell)>;

    closed spec fn view(&self) -> Seq<(Seq<char>, Cell)> {
        cells_of(self.fields@)
    }
}

impl Record {
    pub fn new() -> (r: Record)
        ensures
            r@ == Seq::<(Seq<char>, Cell)>::empty(),
    {
        let r: Record = Record { fields: Vec::new() };
        assert(r@ =~= Seq::<(Seq<char>, Cell)>::empty());
        r
    }

    pub fn add_field(&mut self, name: &str, value: Json)
        ensures
            final(self)@ == old(self)@.push((name@, cell_of(value))),
    {
        let ghost before = self.fields@;
        self.fields.push((name.to_string(), value));
        assert(cells_of(self.fields@) =~= cells_of(before).push((name@, cell_of(value))));
    }

    pub fn add_text(&mut self, name: &str, text: &str)
        ensures
            final(self)@ == old(self)@.push((name@, Cell::Text(text@))),
    {
        self.add_field(name, Json::Text(text.to_string()));
    }

    pub fn add_text_or_null(&mut self, name: &str, text: &Option<String>)
        ensures
            final(self)@ == old(self)@.push((name@, text_cell(text_option(*text)))),
    {
        match text {
            Some(t) => self.add_text(name, t.as_str()),
            None => self.add_field(name, Json::Null),
        }
    }

    pub fn add_whole_or_null(&mut self, name: &str, n: Option<u64>)
        ensures
            final(self)@ == old(self)@.push((name@, whole_cell(n))),
    {
        match n {
            Some(n) => self.add_whole(name, n),
            None => self.add_field(name, Json::Null),
        }
    }

    pub fn add_field_or_null(&mut self, name: &str, value: Option<Json>)
        ensures
            final(self)@ == old(self)@.push((name@, value_cell(value))),
    {
        match value {
            Some(j) => self.add_field(name, j),
            None => self.add_field(name, Json::Null),
        }
    }

    pub fn add_whole(&mut self, name: &str, n: u64)
        ensures
            final(self)@ == old(self)@.push((name@, Cell::Whole(n as int))),
    {
        self.add_field(name, Json::Unsigned(n));
    }

    pub fn add_number(&mut self, name: &str, written: &str)
        ensures
            final(self)@ == old(self)@.push((name@, Cell::Number(written@))),
    {
        self.add_field(name, Json::Real(written.to_string()));
    }

    pub fn add_flag(&mut self, name: &str, flag: bool)
        ensures
            final(self)@ == old(self)@.push((name@, Cell::Flag(flag))),
    {
        self.add_field(name, Json::Bool(flag));
    }

    pub fn add_texts(&mut self, name: &str, all: &Vec<String>)
        ensures
            final(self)@ == old(self)@.push((name@, Cell::Texts(texts(all@)))),
    {
        let mut items: Vec<Json> = Vec::new();
        let mut i: usize = 0;
        while i < all.len()
            invariant
                i <= all@.len(),
                items@.len() == i,
                forall|k: int| 0 <= k < i ==> (#[trigger] items@[k]).as_text() == Some(all@[k]@),
            decreases all@.len() - i,
        {
            items.push(Json::Text(all[i].clone()));
            i += 1;
        }
        assert(Seq::new(items@.len(), |k: int| items@[k].as_text()->Some_0) =~= texts(all@));
        self.add_field(name, Json::List(items));
    }

    pub fn finish(self) -> (r: Json)
        ensures
            is_record(r, self@),
    {
        Json::Object(self.fields)
    }

    /// The fields of the record.
    pub fn into_fields(self) -> (r: Vec<(String, Json)>)
        ensures
            cells_of(r@) == self@,
    {
        self.fields
    }

    /// The record with one more field.
    pub fn finish_with(self, name: &str, last: Json) -> (r: Json)
        ensures
            r matches Json::Object(fields) && fields@.len() > 0 && cells_of(fields@.drop_last())
                == self@ && fields@.last().0@ == name@ && fields@.last().1 == last,
    {
        let mut fields: Vec<(String, Json)> = self.fields;
        let ghost before = fields@;
        fields.push((name.to_string(), last));
        assert(fields@.drop_last() =~= before);
        Json::Object(fields)
    }
}

// ── Laws ─────────────────────────────────────────────────────────────────────

/// What is missing is told as null, and what is there as it is.
pub proof fn missing_values_are_null(text: Seq<char>, n: u64, j: Json)
    ensures
        text_cell(None) == Cell::Value(Json::Null) && whole_cell(None) == Cell::Value(Json::Null)
            && value_cell(None) == Cell::Value(Json::Null),
        text_cell(Some(text)) == Cell::Text(text) && whole_cell(Some(n)) == Cell::Whole(n as int),
        j is Bool ==> cell_of(j) == Cell::Flag(j->Bool_0) && value_cell(Some(j)) == cell_of(j),
        j is Text ==> cell_of(j) == Cell::Text(j->Text_0@),
        j is Unsigned ==> cell_of(j) == Cell::Whole(j->Unsigned_0 as int),
        j is Object || j is Null ==> cell_of(j) == Cell::Value(j),
{
}

} // verus!
