//! A document of the kind that projects are saved in.
//!
//! A document is a tree of values. The library builds such trees from its
//! own types and reads its types back from them; writing a tree as text and
//! reading text into a tree is left to whoever stores the project.

use vstd::prelude::*;
use vstd::std_specs::vec::axiom_vec_index_decreases;
use vstd::string::*;
use crate::decimal::Decimal;
use crate::text::str_eq;

verus! {

/// One named value of an object.
#[derive(PartialEq, Eq, Debug)]
pub struct Field {
    pub key: String,
    pub val: Json,
}

/// A value of a document. A whole number is held exactly, any other
/// number as a decimal.
#[derive(PartialEq, Eq, Debug)]
pub enum Json {
    Null,
    Bool(bool),
    UInt(u64),
    Int(i64),
    Real(Decimal),
    Text(String),
    Array(Vec<Json>),
    Object(Vec<Field>),
}

pub enum JsonView {
    Null,
    Bool(bool),
    UInt(u64),
    Int(i64),
    Real(Decimal),
    Text(Seq<char>),
    Array(Seq<JsonView>),
    Object(Seq<(Seq<char>, JsonView)>),
}

/// The value as a mathematical tree.
pub open spec fn json_view(j: Json) -> JsonView
    decreases j,
{
    match j {
        Json::Null => JsonView::Null,
        Json::Bool(b) => JsonView::Bool(b),
        Json::UInt(n) => JsonView::UInt(n),
        Json::Int(i) => JsonView::Int(i),
        Json::Real(d) => JsonView::Real(d),
        Json::Text(s) => JsonView::Text(s@),
        Json::Array(items) => JsonView::Array(
            Seq::new(
                items.len() as nat,
                |i: int|
                    if 0 <= i < items.len() {
                        proof {
                            axiom_vec_index_decreases(items, i);
                        }
                        json_view(items[i])
                    } else {
                        JsonView::Null
                    },
            ),
        ),
        Json::Object(fields) => JsonView::Object(
            Seq::new(
                fields.len() as nat,
                |i: int|
                    if 0 <= i < fields.len() {
                        proof {
                            axiom_vec_index_decreases(fields, i);
                        }
                        (fields[i].key@, json_view(fields[i].val))
                    } else {
                        (Seq::empty(), JsonView::Null)
                    },
            ),
        ),
    }
}

impl View for Json {
    type V = JsonView;

    open spec fn view(&self) -> JsonView {
        json_view(*self)
    }
}

/// The documents of the items of an array.
pub open spec fn views_of(items: Seq<Json>) -> Seq<JsonView> {
    Seq::new(items.len(), |i: int| items[i]@)
}

/// The value that the first of the first `n` fields with the key `key`
/// holds.
pub open spec fn field_within(fields: Seq<(Seq<char>, JsonView)>, key: Seq<char>, n: int) -> Option<
    JsonView,
>
    decreases n,
{
    if n <= 0 {
        None
    } else {
        match field_within(fields, key, n - 1) {
            Some(v) => Some(v),
            None => if fields[n - 1].0 == key {
                Some(fields[n - 1].1)
            } else {
                None
            },
        }
    }
}

proof fn lemma_field_found(fields: Seq<(Seq<char>, JsonView)>, key: Seq<char>, i: int, n: int)
    requires
        0 < i <= n,
        field_within(fields, key, i) is Some,
    ensures
        field_within(fields, key, n) == field_within(fields, key, i),
    decreases n - i,
{
    if i < n {
        lemma_field_found(fields, key, i, n - 1);
    }
}

/// The greatest and the least whole number that a decimal can hold.
pub const MAX_UNITS: i64 = 9_223_372_036_854;

impl JsonView {
    /// The value of the field `key`, if the value is an object that has one.
    pub open spec fn get(self, key: Seq<char>) -> Option<JsonView> {
        match self {
            JsonView::Object(fields) => field_within(fields, key, fields.len() as int),
            _ => None,
        }
    }

    pub open spec fn as_array(self) -> Option<Seq<JsonView>> {
        match self {
            JsonView::Array(items) => Some(items),
            _ => None,
        }
    }

    pub open spec fn as_object(self) -> Option<Seq<(Seq<char>, JsonView)>> {
        match self {
            JsonView::Object(fields) => Some(fields),
            _ => None,
        }
    }

    pub open spec fn as_text(self) -> Option<Seq<char>> {
        match self {
            JsonView::Text(s) => Some(s),
            _ => None,
        }
    }

    /// The value as a whole number that is not negative.
    pub open spec fn as_u64(self) -> Option<u64> {
        match self {
            JsonView::UInt(n) => Some(n),
            _ => None,
        }
    }

    /// The value as a whole number.
    pub open spec fn as_i64(self) -> Option<i64> {
        match self {
            JsonView::UInt(n) => if n <= i64::MAX {
                Some(n as i64)
            } else {
                None
            },
            JsonView::Int(i) => Some(i),
            _ => None,
        }
    }

    /// The value as a decimal, if it is a number. A whole number beyond what
    /// a decimal can hold gives the decimal nearest to it.
    pub open spec fn as_decimal(self) -> Option<Decimal> {
        match self {
            JsonView::UInt(n) => Some(
                Decimal {
                    micros: if n <= MAX_UNITS {
                        (n * 1_000_000) as i64
                    } else {
                        i64::MAX
                    },
                },
            ),
            JsonView::Int(i) => Some(
                Decimal {
                    micros: if i > MAX_UNITS {
                        i64::MAX
                    } else if i < -MAX_UNITS {
                        i64::MIN
                    } else {
                        (i * 1_000_000) as i64
                    },
                },
            ),
            JsonView::Real(d) => Some(d),
            _ => None,
        }
    }
}

impl Json {
    /// The value of the field `key`, if the value is an object that has one.
    pub fn get<'a>(&'a self, key: &str) -> (r: Option<&'a Json>)
        ensures
            match r {
                Some(v) => self@.get(key@) == Some(v@),
                None => self@.get(key@) is None,
            },
    {
        match self {
            Json::Object(fields) => {
                let ghost view = self@->Object_0;
                let mut i: usize = 0;
                while i < fields.len()
                    invariant
                        i <= fields.len(),
                        self@ == JsonView::Object(view),
                        view.len() == fields.len(),
                        forall|k: int|
                            0 <= k < fields.len() ==> (#[trigger] view[k]) == (
                                fields[k].key@,
                                fields[k].val@,
                            ),
                        field_within(view, key@, i as int) is None,
                    decreases fields.len() - i,
                {
                    if str_eq(fields[i].key.as_str(), key) {
                        proof {
                            lemma_field_found(view, key@, i + 1, view.len() as int);
                        }
                        return Some(&fields[i].val);
                    }
                    i += 1;
                }
                None
            },
            _ => None,
        }
    }

    pub fn as_array<'a>(&'a self) -> (r: Option<&'a Vec<Json>>)
        ensures
            match r {
                Some(items) => self@.as_array() == Some(views_of(items@)),
                None => self@.as_array() is None,
            },
    {
        match self {
            Json::Array(items) => {
                assert(self@->Array_0 =~= views_of(items@));
                Some(items)
            },
            _ => None,
        }
    }

    pub fn as_object<'a>(&'a self) -> (r: Option<&'a Vec<Field>>)
        ensures
            match r {
                Some(fields) => self@.as_object() is Some && self@.as_object().unwrap().len()
                    == fields@.len() && forall|i: int|
                    0 <= i < fields@.len() ==> self@.as_object().unwrap()[i] == ((
                    #[trigger] fields@[i]).key@, fields@[i].val@),
                None => self@.as_object() is None,
            },
    {
        match self {
            Json::Object(fields) => Some(fields),
            _ => None,
        }
    }

    pub fn as_str<'a>(&'a self) -> (r: Option<&'a str>)
        ensures
            match r {
                Some(s) => self@.as_text() == Some(s@),
                None => self@.as_text() is None,
            },
    {
        match self {
            Json::Text(s) => Some(s.as_str()),
            _ => None,
        }
    }

    pub fn as_u64(&self) -> (r: Option<u64>)
        ensures
            r == self@.as_u64(),
    {
        match self {
            Json::UInt(n) => Some(*n),
            _ => None,
        }
    }

    pub fn as_i64(&self) -> (r: Option<i64>)
        ensures
            r == self@.as_i64(),
    {
        match self {
            Json::UInt(n) => if *n <= i64::MAX as u64 {
                Some(*n as i64)
            } else {
                None
            },
            Json::Int(i) => Some(*i),
            _ => None,
        }
    }

    pub fn as_decimal(&self) -> (r: Option<Decimal>)
        ensures
            r == self@.as_decimal(),
    {
        match self {
            Json::UInt(n) => if *n <= MAX_UNITS as u64 {
                Some(Decimal { micros: (*n as i64) * 1_000_000 })
            } else {
                Some(Decimal { micros: i64::MAX })
            },
            Json::Int(i) => if *i > MAX_UNITS {
                Some(Decimal { micros: i64::MAX })
            } else if *i < -MAX_UNITS {
                Some(Decimal { micros: i64::MIN })
            } else {
                Some(Decimal { micros: *i * 1_000_000 })
            },
            Json::Real(d) => Some(*d),
            _ => None,
        }
    }

    /// An object of one field.
    pub fn object1(key: &str, val: Json) -> (j: Json)
        ensures
            j@ == JsonView::Object(seq![(key@, val@)]),
    {
        let mut fields: Vec<Field> = Vec::new();
        fields.push(Field { key: String::from_str(key), val });
        let j = Json::Object(fields);
        assert(j@->Object_0 =~= seq![(key@, val@)]);
        j
    }

    /// The object with one more field at its end. Any other value stays as
    /// it is.
    pub fn with_field(self, key: &str, val: Json) -> (j: Json)
        ensures
            j@ == match self@ {
                JsonView::Object(fields) => JsonView::Object(fields.push((key@, val@))),
                other => other,
            },
    {
        match self {
            Json::Object(fields) => {
                let ghost before = json_view(Json::Object(fields))->Object_0;
                let mut fields = fields;
                fields.push(Field { key: String::from_str(key), val });
                let j = Json::Object(fields);
                assert(j@->Object_0 =~= before.push((key@, val@)));
                j
            },
            other => other,
        }
    }
}

} // verus!
