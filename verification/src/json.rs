//! JSON documents as plain values, and the reading of their members.
//!
//! The parsing of JSON text is `serde_json`'s. What the library reads from a
//! document (a member of an object, a text, a flag, a count) is stated over
//! `JsonValue`, the mathematical contents of a document.

use vstd::prelude::*;
use crate::text::same_text;

verus! {

/// A JSON document. A number that is no integer keeps no value.
#[derive(Debug, PartialEq, Eq)]
pub enum Json {
    Null,
    Bool(bool),
    Integer(i128),
    Fraction,
    Text(String),
    Array(Vec<Json>),
    Object(Vec<(String, Json)>),
}

/// What a JSON document holds.
pub ghost enum JsonValue {
    Null,
    Bool(bool),
    Integer(int),
    Fraction,
    Text(Seq<char>),
    Array(Seq<JsonValue>),
    Object(Seq<(Seq<char>, JsonValue)>),
}

/// `serde_json::Value`, of which nothing is known here but what
/// `value_contents` names.
#[verifier::external_type_specification]
#[verifier::external_body]
pub struct ExValue(serde_json::Value);

/// What a `serde_json::Value` holds.
pub uninterp spec fn value_contents(value: serde_json::Value) -> JsonValue;

/// The document that `serde_json::from_str` reads from a text, or `None`
/// where it reports an error.
pub uninterp spec fn parsed_json(text: Seq<char>) -> Option<JsonValue>;

impl Json {
    /// What this document holds.
    pub open spec fn value(self) -> JsonValue
        decreases self,
    {
        match self {
            Json::Null => JsonValue::Null,
            Json::Bool(b) => JsonValue::Bool(b),
            Json::Integer(i) => JsonValue::Integer(i as int),
            Json::Fraction => JsonValue::Fraction,
            Json::Text(s) => JsonValue::Text(s@),
            Json::Array(items) => JsonValue::Array(
                Seq::new(
                    items@.len(),
                    |i: int|
                        if 0 <= i < items@.len() {
                            items@[i].value()
                        } else {
                            JsonValue::Null
                        },
                ),
            ),
            Json::Object(fields) => JsonValue::Object(
                Seq::new(
                    fields@.len(),
                    |i: int|
                        if 0 <= i < fields@.len() {
                            (fields@[i].0@, fields@[i].1.value())
                        } else {
                            (Seq::<char>::empty(), JsonValue::Null)
                        },
                ),
            ),
        }
    }
}

/// The value of the first field with a given name.
pub open spec fn first_named(fields: Seq<(Seq<char>, JsonValue)>, name: Seq<char>) -> Option<
    JsonValue,
>
    decreases fields.len(),
{
    if fields.len() == 0 {
        None
    } else if fields[0].0 == name {
        Some(fields[0].1)
    } else {
        first_named(fields.skip(1), name)
    }
}

/// The member of an object with a given name; `None` where the document is
/// no object or has no such member.
pub open spec fn member_of(v: JsonValue, name: Seq<char>) -> Option<JsonValue> {
    match v {
        JsonValue::Object(fields) => first_named(fields, name),
        _ => None,
    }
}

/// A member that must be a text.
pub open spec fn text_member(v: JsonValue, name: Seq<char>) -> Option<Seq<char>> {
    match member_of(v, name) {
        Some(JsonValue::Text(s)) => Some(s),
        _ => None,
    }
}

/// A member that is a text, or is `null` or missing; `None` where it is
/// anything else.
pub open spec fn optional_text_member(v: JsonValue, name: Seq<char>) -> Option<Option<Seq<char>>> {
    match member_of(v, name) {
        None => Some(None),
        Some(JsonValue::Null) => Some(None),
        Some(JsonValue::Text(s)) => Some(Some(s)),
        _ => None,
    }
}

/// A member that must be `true` or `false`.
pub open spec fn flag_member(v: JsonValue, name: Seq<char>) -> Option<bool> {
    match member_of(v, name) {
        Some(JsonValue::Bool(b)) => Some(b),
        _ => None,
    }
}

/// A member that must be an integer within given bounds.
pub open spec fn integer_member(v: JsonValue, name: Seq<char>, low: int, high: int) -> Option<int> {
    match member_of(v, name) {
        Some(JsonValue::Integer(i)) => if low <= i <= high {
            Some(i)
        } else {
            None
        },
        _ => None,
    }
}

/// Calls `serde_json::from_str` for a `serde_json::Value`.
#[verifier::external_body]
fn value_from_text(text: &str) -> (out: Option<serde_json::Value>)
    ensures
        match out {
            Some(v) => parsed_json(text@) == Some(value_contents(v)),
            None => parsed_json(text@) is None,
        },
{
    serde_json::from_str::<serde_json::Value>(text).ok()
}

/// Copies a `serde_json::Value` into a `Json`, variant by variant. An
/// integer is read with `Number::as_i128`; a number for which that gives
/// nothing becomes `Fraction`. The fields of an object come in the order in
/// which its map hands them out.
#[verifier::external_body]
fn json_from_value(value: &serde_json::Value) -> (out: Json)
    ensures
        out.value() == value_contents(*value),
{
    match value {
        serde_json::Value::Null => Json::Null,
        serde_json::Value::Bool(b) => Json::Bool(*b),
        serde_json::Value::Number(n) => match n.as_i128() {
            Some(i) => Json::Integer(i),
            None => Json::Fraction,
        },
        serde_json::Value::String(s) => Json::Text(s.clone()),
        serde_json::Value::Array(a) => Json::Array(a.iter().map(json_from_value).collect()),
        serde_json::Value::Object(o) => Json::Object(
            o.iter().map(|(k, v)| (k.clone(), json_from_value(v))).collect(),
        ),
    }
}

/// Reads a JSON document from a text. Returns `None` where the text is no
/// JSON document.
pub fn parse_json(text: &str) -> (out: Option<Json>)
    ensures
        match out {
            Some(j) => parsed_json(text@) == Some(j.value()),
            None => parsed_json(text@) is None,
        },
{
    match value_from_text(text) {
        Some(v) => Some(json_from_value(&v)),
        None => None,
    }
}

impl Json {
    /// The member of an object with a given name.
    pub fn member(&self, name: &str) -> (out: Option<&Json>)
        ensures
            match out {
                Some(j) => member_of(self.value(), name@) == Some(j.value()),
                None => member_of(self.value(), name@) is None,
            },
    {
        match self {
            Json::Object(fields) => {
                let ghost all = self.value()->Object_0;
                let mut i: usize = 0;
                assert(all.skip(0) =~= all);
                while i < fields.len()
                    invariant
                        i <= fields.len(),
                        all.len() == fields@.len(),
                        forall|k: int|
                            0 <= k < fields@.len() ==> all[k] == (
                                fields@[k].0@,
                                fields@[k].1.value(),
                            ),
                        member_of(self.value(), name@) == first_named(all, name@),
                        first_named(all, name@) == first_named(all.skip(i as int), name@),
                    decreases fields.len() - i,
                {
                    assert(all.skip(i as int)[0] == all[i as int]);
                    assert(all.skip(i as int).skip(1) =~= all.skip(i + 1));
                    if same_text(fields[i].0.as_str(), name) {
                        return Some(&fields[i].1);
                    }
                    i = i + 1;
                }
                None
            },
            _ => None,
        }
    }

    /// A member that must be a text.
    pub fn text(&self, name: &str) -> (out: Option<String>)
        ensures
            match out {
                Some(s) => text_member(self.value(), name@) == Some(s@),
                None => text_member(self.value(), name@) is None,
            },
    {
        match self.member(name) {
            Some(Json::Text(s)) => Some(s.clone()),
            _ => None,
        }
    }

    /// A member that may be a text, `null` or missing. The outer `None`
    /// says that it is something else.
    pub fn optional_text(&self, name: &str) -> (out: Option<Option<String>>)
        ensures
            match out {
                Some(Some(s)) => optional_text_member(self.value(), name@) == Some(Some(s@)),
                Some(None) => optional_text_member(self.value(), name@) == Some(
                    None::<Seq<char>>,
                ),
                None => optional_text_member(self.value(), name@) is None,
            },
    {
        match self.member(name) {
            None => Some(None),
            Some(Json::Null) => Some(None),
            Some(Json::Text(s)) => Some(Some(s.clone())),
            _ => None,
        }
    }

    /// A member that must be `true` or `false`.
    pub fn flag(&self, name: &str) -> (out: Option<bool>)
        ensures
            out == flag_member(self.value(), name@),
    {
        match self.member(name) {
            Some(Json::Bool(b)) => Some(*b),
            _ => None,
        }
    }

    /// A member that must be an integer from `low` to `high`.
    pub fn integer(&self, name: &str, low: i128, high: i128) -> (out: Option<i128>)
        ensures
            match out {
                Some(i) => integer_member(self.value(), name@, low as int, high as int) == Some(
                    i as int,
                ),
                None => integer_member(self.value(), name@, low as int, high as int) is None,
            },
    {
        match self.member(name) {
            Some(Json::Integer(i)) => {
                if low <= *i && *i <= high {
                    Some(*i)
                } else {
                    None
                }
            },
            _ => None,
        }
    }
}

} // verus!
