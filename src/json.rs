//! JSON documents as the library reads and builds them, and their text form.

use crate::decimal::{i64_to_text, integer_of, signed_text};
use vstd::prelude::*;

verus! {

#[verifier::external_type_specification]
#[verifier::external_body]
pub struct ExJsonValue(serde_json::Value);

/// A JSON document. An object holds its members in order. A document read
/// by `Json::from_text` has them in the order of serde_json's map: sorted by
/// name, one member per name.
#[derive(Debug, PartialEq)]
pub enum Json {
    Null,
    Bool(bool),
    /// A number, held as its decimal text.
    Num(String),
    Str(String),
    Array(Vec<Json>),
    Object(Vec<(String, Json)>),
}

/// The value of the first member named `key`.
pub open spec fn field_of(fields: Seq<(String, Json)>, key: Seq<char>) -> Option<Json>
    decreases fields.len(),
{
    if fields.len() == 0 {
        None
    } else {
        let before = field_of(fields.drop_last(), key);
        if before is Some {
            before
        } else if fields.last().0@ == key {
            Some(fields.last().1)
        } else {
            None
        }
    }
}

/// The member `key` of `j`, where `j` is an object that has one.
pub open spec fn member(j: Json, key: Seq<char>) -> Option<Json> {
    match j {
        Json::Object(fields) => field_of(fields@, key),
        _ => None,
    }
}

/// The member names of `j`, in order, where it is an object; else none.
pub open spec fn keys_of(j: Json) -> Seq<Seq<char>> {
    match j {
        Json::Object(fields) => Seq::new(fields@.len(), |i: int| fields@[i].0@),
        _ => Seq::empty(),
    }
}

/// The text of `j`, where it is a string.
pub open spec fn text_of(j: Json) -> Option<Seq<char>> {
    match j {
        Json::Str(s) => Some(s@),
        _ => None,
    }
}

/// The integer that `j` holds, where it is a whole number.
pub open spec fn integer_in(j: Json) -> Option<int> {
    match j {
        Json::Num(t) => integer_of(t@),
        _ => None,
    }
}

/// A key that no member has is absent.
pub proof fn lemma_field_absent(fields: Seq<(String, Json)>, key: Seq<char>)
    requires
        forall|i: int| 0 <= i < fields.len() ==> (#[trigger] fields[i]).0@ != key,
    ensures
        field_of(fields, key) is None,
    decreases fields.len(),
{
    if fields.len() > 0 {
        let rest = fields.drop_last();
        assert forall|i: int| 0 <= i < rest.len() implies (#[trigger] rest[i]).0@ != key by {
            assert(rest[i] == fields[i]);
        }
        lemma_field_absent(rest, key);
    }
}

/// The first member named `key` gives its value.
pub proof fn lemma_field_first(fields: Seq<(String, Json)>, k: int, key: Seq<char>)
    requires
        0 <= k < fields.len(),
        fields[k].0@ == key,
        forall|i: int| 0 <= i < k ==> (#[trigger] fields[i]).0@ != key,
    ensures
        field_of(fields, key) == Some(fields[k].1),
    decreases fields.len(),
{
    let rest = fields.drop_last();
    if k == fields.len() - 1 {
        assert forall|i: int| 0 <= i < rest.len() implies (#[trigger] rest[i]).0@ != key by {
            assert(rest[i] == fields[i]);
        }
        lemma_field_absent(rest, key);
    } else {
        assert forall|i: int| 0 <= i < k implies (#[trigger] rest[i]).0@ != key by {
            assert(rest[i] == fields[i]);
        }
        lemma_field_first(rest, k, key);
    }
}

/// The document that `text` holds, where it is well-formed JSON.
pub uninterp spec fn parsed_json(text: Seq<char>) -> Option<Json>;

/// The text that the document `j` is written as.
pub uninterp spec fn printed_json(j: Json) -> Seq<char>;

/// Moves each node of a serde_json::Value into the matching `Json` node; a
/// number keeps the text that serde_json's `Display` writes for it.
#[verifier::external_body]
fn json_from_value(v: serde_json::Value) -> Json {
    match v {
        serde_json::Value::Null => Json::Null,
        serde_json::Value::Bool(b) => Json::Bool(b),
        serde_json::Value::Number(n) => Json::Num(n.to_string()),
        serde_json::Value::String(s) => Json::Str(s),
        serde_json::Value::Array(a) => Json::Array(a.into_iter().map(json_from_value).collect()),
        serde_json::Value::Object(o) => Json::Object(
            o.into_iter().map(|(k, v)| (k, json_from_value(v))).collect(),
        ),
    }
}

/// Builds the serde_json::Value of each `Json` node; a number is read back by
/// serde_json's `FromStr` for `Number`.
#[verifier::external_body]
fn json_to_value(j: &Json) -> serde_json::Value {
    match j {
        Json::Null => serde_json::Value::Null,
        Json::Bool(b) => serde_json::Value::Bool(*b),
        Json::Num(t) => t.parse::<serde_json::Number>().map(serde_json::Value::Number).unwrap_or(
            serde_json::Value::Null,
        ),
        Json::Str(s) => serde_json::Value::String(s.clone()),
        Json::Array(a) => serde_json::Value::Array(a.iter().map(json_to_value).collect()),
        Json::Object(f) => serde_json::Value::Object(
            f.iter().map(|(k, v)| (k.clone(), json_to_value(v))).collect(),
        ),
    }
}

/// Relies on serde_json::from_str::<serde_json::Value>: parses `text` as one
/// JSON document, or fails; the result depends on the text alone.
#[verifier::external_body]
pub(crate) fn parse_json(text: &str) -> (r: Option<Json>)
    ensures
        r == parsed_json(text@),
{
    serde_json::from_str::<serde_json::Value>(text).ok().map(json_from_value)
}

/// Relies on the `Display` of serde_json::Value: the compact JSON text of the
/// document, which depends on the document alone.
#[verifier::external_body]
pub(crate) fn print_json(j: &Json) -> (r: String)
    ensures
        r@ == printed_json(*j),
{
    json_to_value(j).to_string()
}

impl Clone for Json {
    fn clone(&self) -> Json {
        self.copy()
    }
}

impl Json {
    /// A copy of this document, node for node.
    pub fn copy(&self) -> (r: Json)
        decreases self,
    {
        proof {
            broadcast use vstd::std_specs::vec::group_vec_axioms;
        }
        match self {
            Json::Null => Json::Null,
            Json::Bool(b) => Json::Bool(*b),
            Json::Num(t) => Json::Num(t.clone()),
            Json::Str(t) => Json::Str(t.clone()),
            Json::Array(items) => {
                let mut out: Vec<Json> = Vec::new();
                let mut i: usize = 0;
                while i < items.len()
                    invariant
                        0 <= i <= items.len(),
                        *self == Json::Array(*items),
                    decreases items.len() - i,
                {
                    proof {
                        assert(decreases_to!(*items => items[i as int]));
                        assert(decreases_to!(*self => (*self)->Array_0));
                        assert(decreases_to!(*self => items[i as int]));
                    }
                    let item = items[i].copy();
                    out.push(item);
                    i = i + 1;
                }
                Json::Array(out)
            },
            Json::Object(fields) => {
                let mut out: Vec<(String, Json)> = Vec::new();
                let mut i: usize = 0;
                while i < fields.len()
                    invariant
                        0 <= i <= fields.len(),
                        *self == Json::Object(*fields),
                    decreases fields.len() - i,
                {
                    proof {
                        assert(decreases_to!(*fields => fields[i as int]));
                        assert(decreases_to!(*self => (*self)->Object_0));
                        assert(decreases_to!(*self => fields[i as int].1));
                    }
                    let key = fields[i].0.clone();
                    let value = fields[i].1.copy();
                    out.push((key, value));
                    i = i + 1;
                }
                Json::Object(out)
            },
        }
    }

    /// The member `key` of this document, where it is an object that has one.
    pub fn get(&self, key: &str) -> (r: Option<&Json>)
        ensures
            r.is_some() == member(*self, key@).is_some(),
            r.is_some() ==> *r.unwrap() == member(*self, key@).unwrap(),
    {
        match self {
            Json::Object(fields) => {
                let k = String::from_str(key);
                let mut found: Option<&Json> = None;
                let mut i: usize = 0;
                while i < fields.len()
                    invariant
                        0 <= i <= fields.len(),
                        k@ == key@,
                        found.is_some() == field_of(fields@.subrange(0, i as int), key@).is_some(),
                        found.is_some() ==> *found.unwrap() == field_of(
                            fields@.subrange(0, i as int),
                            key@,
                        ).unwrap(),
                    decreases fields.len() - i,
                {
                    proof {
                        assert(fields@.subrange(0, i as int + 1).drop_last() =~= fields@.subrange(
                            0,
                            i as int,
                        ));
                    }
                    if found.is_none() && fields[i].0 == k {
                        found = Some(&fields[i].1);
                    }
                    i = i + 1;
                }
                proof {
                    assert(fields@.subrange(0, fields.len() as int) =~= fields@);
                }
                found
            },
            _ => None,
        }
    }

    /// The text of this document, where it is a string.
    pub fn as_str(&self) -> (r: Option<&String>)
        ensures
            r.is_some() == text_of(*self).is_some(),
            r.is_some() ==> r.unwrap()@ == text_of(*self).unwrap(),
    {
        match self {
            Json::Str(s) => Some(s),
            _ => None,
        }
    }

    /// A number written as the decimal text of `v`.
    pub fn from_i64(v: i64) -> (r: Json)
        ensures
            r matches Json::Num(t) && t@ == signed_text(v as int),
            integer_in(r) == Some(v as int),
    {
        proof {
            crate::decimal::lemma_signed_text_round_trip(v as int);
        }
        Json::Num(i64_to_text(v))
    }

    /// The compact JSON text of this document.
    pub fn to_text(&self) -> (r: String)
        ensures
            r@ == printed_json(*self),
    {
        print_json(self)
    }

    /// Reads one JSON document from `text`.
    pub fn from_text(text: &str) -> (r: Option<Json>)
        ensures
            r == parsed_json(text@),
    {
        parse_json(text)
    }
}

} // verus!
