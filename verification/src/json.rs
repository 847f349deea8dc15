//! JSON documents, as `serde_json` parses and holds them.
//!
//! A [`serde_json::Value`] is opaque to the verifier. What it holds is named
//! by [`content`], a tree of plain mathematical values, and every item of this
//! module states over that tree what the corresponding `serde_json` function
//! does. None of these statements is proved here: they are read off the
//! `serde_json` sources.

use vstd::prelude::*;

verus! {

/// `serde_json::Value`, a JSON document in memory. Nothing inside it is
/// visible to the verifier.
#[verifier::external_type_specification]
#[verifier::external_body]
pub struct ExValue(serde_json::Value);

/// What a JSON document holds, as far as this crate reads it.
pub enum JsonValue {
    Null,
    Bool(bool),
    /// A number. The payload is what `Value::as_u64` gives for it: the
    /// number itself where it is a non-negative integer that fits in 64
    /// bits, and `None` for every other number. Numbers of the second kind
    /// are not told apart here.
    Number(Option<u64>),
    Text(Seq<char>),
    Array(Seq<JsonValue>),
    /// An object: its members by key. The order of the members is not part
    /// of the model.
    Object(Map<Seq<char>, JsonValue>),
}

/// The document that `v` holds.
pub uninterp spec fn content(v: serde_json::Value) -> JsonValue;

/// What `serde_json::from_str` makes of `text`: the document that the text
/// denotes, or, where it rejects the text, the message of its error.
pub uninterp spec fn parsed(text: Seq<char>) -> Result<JsonValue, Seq<char>>;

/// The documents that a sequence of values holds, in order.
pub open spec fn contents(items: Seq<serde_json::Value>) -> Seq<JsonValue> {
    items.map_values(|v: serde_json::Value| content(v))
}

/// The member of `j` under `key`; `None` where `j` is no object or has no
/// such member.
pub open spec fn member_of(j: JsonValue, key: Seq<char>) -> Option<JsonValue> {
    match j {
        JsonValue::Object(members) => if members.contains_key(key) {
            Some(members[key])
        } else {
            None
        },
        _ => None,
    }
}

/// The value of `j` as an unsigned integer; `None` where `j` is no number or
/// not a non-negative integer below 2^64.
pub open spec fn unsigned_of(j: JsonValue) -> Option<u64> {
    match j {
        JsonValue::Number(n) => n,
        _ => None,
    }
}

/// The text of `j`; `None` where `j` is no string.
pub open spec fn text_of(j: JsonValue) -> Option<Seq<char>> {
    match j {
        JsonValue::Text(s) => Some(s),
        _ => None,
    }
}

/// The elements of `j`; `None` where `j` is no array.
pub open spec fn elements_of(j: JsonValue) -> Option<Seq<JsonValue>> {
    match j {
        JsonValue::Array(items) => Some(items),
        _ => None,
    }
}

/// `serde_json::from_str` at type `Value`: parses a whole text as one JSON
/// document. Where it fails, its error is rendered as text, by the error's
/// `Display`. The outcome depends on the text alone and is named by
/// [`parsed`]: the value returned holds that document, the message returned
/// is that message.
#[verifier::external_body]
pub(crate) fn parse(text: &str) -> (r: Result<serde_json::Value, String>)
    ensures
        match r {
            Ok(v) => parsed(text@) == Ok::<JsonValue, Seq<char>>(content(v)),
            Err(m) => parsed(text@) == Err::<JsonValue, Seq<char>>(m@),
        },
{
    match serde_json::from_str::<serde_json::Value>(text) {
        Ok(v) => Ok(v),
        Err(e) => Err(e.to_string()),
    }
}

/// `Value::is_null`: whether the value is JSON `null`.
pub assume_specification[ serde_json::Value::is_null ](v: &serde_json::Value) -> (r: bool)
    ensures
        r == (content(*v) is Null),
;

/// `Value::is_object`: whether the value is a JSON object.
pub assume_specification[ serde_json::Value::is_object ](v: &serde_json::Value) -> (r: bool)
    ensures
        r == (content(*v) is Object),
;

/// `Value::as_u64`: the number, where the value is a non-negative integer
/// that fits in `u64`.
pub assume_specification[ serde_json::Value::as_u64 ](v: &serde_json::Value) -> (r: Option<u64>)
    ensures
        r == unsigned_of(content(*v)),
;

/// `Value::as_str`: the string, where the value is one.
pub assume_specification<'a>[ serde_json::Value::as_str ](v: &'a serde_json::Value) -> (r: Option<
    &'a str,
>)
    ensures
        match r {
            Some(s) => text_of(content(*v)) == Some(s@),
            None => text_of(content(*v)) is None,
        },
;

/// `Value::as_array`: the elements, where the value is an array.
pub assume_specification<'a>[ serde_json::Value::as_array ](v: &'a serde_json::Value) -> (r: Option<
    &'a Vec<serde_json::Value>,
>)
    ensures
        match r {
            Some(items) => elements_of(content(*v)) == Some(contents(items@)),
            None => elements_of(content(*v)) is None,
        },
;

/// `<Value as Clone>::clone`: a value that holds the same document.
pub assume_specification[ <serde_json::Value as Clone>::clone ](v: &serde_json::Value) -> (r:
    serde_json::Value)
    ensures
        content(r) == content(*v),
;

/// `Value::get` with a string index: the member under `key`, where the value
/// is an object that has one.
#[verifier::external_body]
pub(crate) fn member<'a>(v: &'a serde_json::Value, key: &str) -> (r: Option<&'a serde_json::Value>)
    ensures
        match r {
            Some(m) => member_of(content(*v), key@) == Some(content(*m)),
            None => member_of(content(*v), key@) is None,
        },
{
    v.get(key)
}

/// Assignment through `IndexMut` with a string index, on an object: the
/// member under `key` is added or replaced, and the other members stay.
#[verifier::external_body]
pub(crate) fn set_member(v: &mut serde_json::Value, key: &str, member: serde_json::Value)
    requires
        content(*old(v)) is Object,
    ensures
        content(*final(v)) == JsonValue::Object(
            content(*old(v))->Object_0.insert(key@, content(member)),
        ),
{
    v[key] = member;
}

/// The variant `Value::Array`: an array with the given elements.
#[verifier::external_body]
pub(crate) fn array_of(items: Vec<serde_json::Value>) -> (r: serde_json::Value)
    ensures
        content(r) == JsonValue::Array(contents(items@)),
{
    serde_json::Value::Array(items)
}

} // verus!
