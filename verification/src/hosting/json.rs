//! JSON documents, as far as the engine reads them.

use vstd::prelude::*;
use crate::text::convert::{chars_of, string_of};

verus! {

/// A JSON value of `serde_json`. Nothing of its inside is known here.
#[verifier::external_type_specification]
#[verifier::external_body]
pub struct ExJsonValue(serde_json::Value);

/// What a JSON value holds. Of a number only this is kept: the number
/// itself where it is a whole number that is not negative and fits in 64
/// bits.
pub enum JsonView {
    Null,
    Bool(bool),
    Number(Option<u64>),
    Text(Seq<char>),
    Array(Seq<JsonView>),
    Object(Map<Seq<char>, JsonView>),
}

/// What a value of `serde_json` holds.
pub uninterp spec fn json_of(v: serde_json::Value) -> JsonView;

/// What a text reads as: the value it stands for, or the message of the
/// parser where it is no JSON.
pub uninterp spec fn parsed_json(text: Seq<char>) -> Result<JsonView, Seq<char>>;

/// The member of an object under a key. Anything that is no object, and an
/// object without the key, gives null.
pub open spec fn member(j: JsonView, key: Seq<char>) -> JsonView {
    match j {
        JsonView::Object(members) => if members.contains_key(key) {
            members[key]
        } else {
            JsonView::Null
        },
        _ => JsonView::Null,
    }
}

/// The number that a value is, where it is one that is kept.
pub open spec fn as_number(j: JsonView) -> Option<u64> {
    match j {
        JsonView::Number(n) => n,
        _ => None,
    }
}

/// The text that a value is, where it is one.
pub open spec fn as_text(j: JsonView) -> Option<Seq<char>> {
    match j {
        JsonView::Text(t) => Some(t),
        _ => None,
    }
}

/// The truth value that a value is, where it is one.
pub open spec fn as_flag(j: JsonView) -> Option<bool> {
    match j {
        JsonView::Bool(b) => Some(b),
        _ => None,
    }
}

/// The items that a value holds, where it is an array.
pub open spec fn as_items(j: JsonView) -> Option<Seq<JsonView>> {
    match j {
        JsonView::Array(items) => Some(items),
        _ => None,
    }
}

/// What each of the values holds.
pub open spec fn items_of(values: Seq<serde_json::Value>) -> Seq<JsonView> {
    Seq::new(values.len(), |i: int| json_of(values[i]))
}

/// `serde_json::from_str` reads a text as a JSON value. It fails, with a
/// message, on a text that is no JSON; the message is handed on as text.
#[verifier::external_body]
pub(crate) fn json_parse(text: &str) -> (r: Result<serde_json::Value, String>)
    ensures
        match r {
            Ok(v) => parsed_json(text@) == Ok::<JsonView, Seq<char>>(json_of(v)),
            Err(e) => parsed_json(text@) == Err::<JsonView, Seq<char>>(e@),
        },
{
    serde_json::from_str::<serde_json::Value>(text).map_err(|e| e.to_string())
}

/// What a text reads as where a list is asked for: the items of the array
/// it stands for, or the message of the parser where it is no JSON or no
/// array.
pub uninterp spec fn parsed_json_list(text: Seq<char>) -> Result<Seq<JsonView>, Seq<char>>;

/// `serde_json::from_str`, asked for a list of values, reads a text as a
/// JSON array. It fails, with a message, on a text that is none; the message
/// is handed on as text.
#[verifier::external_body]
pub(crate) fn json_parse_list(text: &str) -> (r: Result<Vec<serde_json::Value>, String>)
    ensures
        match r {
            Ok(items) => parsed_json_list(text@) == Ok::<Seq<JsonView>, Seq<char>>(
                items_of(items@),
            ),
            Err(e) => parsed_json_list(text@) == Err::<Seq<JsonView>, Seq<char>>(e@),
        },
{
    serde_json::from_str::<Vec<serde_json::Value>>(text).map_err(|e| e.to_string())
}

/// Indexing a `serde_json::Value` by a key gives the member of an object
/// under that key, and null for a missing key or for anything that is no
/// object.
#[verifier::external_body]
pub(crate) fn json_field<'a>(v: &'a serde_json::Value, key: &str) -> (r: &'a serde_json::Value)
    ensures
        json_of(*r) == member(json_of(*v), key@),
{
    &v[key]
}

/// `Value::as_u64` gives the number where the value is a whole number that
/// is not negative and fits in 64 bits.
#[verifier::external_body]
pub(crate) fn json_u64(v: &serde_json::Value) -> (r: Option<u64>)
    ensures
        r == as_number(json_of(*v)),
{
    v.as_u64()
}

/// `Value::as_str` gives the text where the value is a string.
#[verifier::external_body]
pub(crate) fn json_str<'a>(v: &'a serde_json::Value) -> (r: Option<&'a str>)
    ensures
        match r {
            Some(s) => as_text(json_of(*v)) == Some(s@),
            None => as_text(json_of(*v)) is None,
        },
{
    v.as_str()
}

/// `Value::as_bool` gives the truth value where the value is one.
#[verifier::external_body]
pub(crate) fn json_bool(v: &serde_json::Value) -> (r: Option<bool>)
    ensures
        r == as_flag(json_of(*v)),
{
    v.as_bool()
}

/// `Value::as_array` gives the items where the value is an array.
#[verifier::external_body]
pub(crate) fn json_array<'a>(v: &'a serde_json::Value) -> (r: Option<&'a Vec<serde_json::Value>>)
    ensures
        match r {
            Some(items) => as_items(json_of(*v)) == Some(items_of(items@)),
            None => as_items(json_of(*v)) is None,
        },
{
    v.as_array()
}

/// The text under a key, or nothing where there is no text under it.
pub open spec fn text_at(j: JsonView, key: Seq<char>) -> Seq<char> {
    match as_text(member(j, key)) {
        Some(t) => t,
        None => Seq::empty(),
    }
}

/// The number under a key, or 0 where there is none under it.
pub open spec fn number_at(j: JsonView, key: Seq<char>) -> u64 {
    match as_number(member(j, key)) {
        Some(n) => n,
        None => 0,
    }
}

pub(crate) fn text_field(v: &serde_json::Value, key: &str) -> (out: String)
    ensures
        out@ == text_at(json_of(*v), key@),
{
    match json_str(json_field(v, key)) {
        Some(s) => string_of(&chars_of(s)),
        None => String::new(),
    }
}

pub(crate) fn number_field(v: &serde_json::Value, key: &str) -> (n: u64)
    ensures
        n == number_at(json_of(*v), key@),
{
    match json_u64(json_field(v, key)) {
        Some(n) => n,
        None => 0,
    }
}

} // verus!
