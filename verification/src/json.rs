//! JSON values as the relay protocol sees them.
//!
//! Values are `serde_json::Value`. This module describes what such a value
//! holds by a mathematical model and states, for each operation of
//! `serde_json` that the protocol uses, what it does in terms of that model.
//! Nothing in this module is proved: it is the boundary to `serde_json`.

use vstd::prelude::*;

verus! {

/// A JSON number.
pub enum JsonNumber {
    /// A non-negative integer that fits in 64 bits.
    Unsigned(u64),
    /// A negative integer, or a number with a fraction or an exponent,
    /// known by the characters with which it is written.
    Other(Seq<char>),
}

/// The mathematical content of a JSON value.
pub enum JsonModel {
    Null,
    Bool(bool),
    Number(JsonNumber),
    Text(Seq<char>),
    Array(Seq<JsonModel>),
    Object(Map<Seq<char>, JsonModel>),
}

#[verifier::external_type_specification]
#[verifier::external_body]
pub struct ExJsonValue(serde_json::Value);

/// What a JSON value holds.
pub uninterp spec fn json_model(v: serde_json::Value) -> JsonModel;

/// What `serde_json::from_str` makes of a text: the content of the value it
/// reads, or nothing when the text is not one JSON value.
pub uninterp spec fn json_parsed(text: Seq<char>) -> Option<JsonModel>;

/// What `serde_json::to_string` makes of a value with the given content:
/// its text, or the words of the error with which it gives up.
pub uninterp spec fn json_rendered(m: JsonModel) -> Result<Seq<char>, Seq<char>>;

/// The member of an object under `key`, if `m` is an object that has one.
pub open spec fn member(m: JsonModel, key: Seq<char>) -> Option<JsonModel> {
    match m {
        JsonModel::Object(fields) => if fields.dom().contains(key) {
            Some(fields[key])
        } else {
            None
        },
        _ => None,
    }
}

/// The object `m` with `value` under `key`; `m` itself if it is no object.
pub open spec fn with_member(m: JsonModel, key: Seq<char>, value: JsonModel) -> JsonModel {
    match m {
        JsonModel::Object(fields) => JsonModel::Object(fields.insert(key, value)),
        _ => m,
    }
}

/// The object without members.
pub open spec fn empty_object() -> JsonModel {
    JsonModel::Object(Map::empty())
}

/// `serde_json::from_str` at the type `Value`: the value that the text
/// spells, and nothing when the text is not one JSON value. The parser reads
/// nothing but the text.
#[verifier::external_body]
pub(crate) fn json_parse(text: &str) -> (r: Option<serde_json::Value>)
    ensures
        match r {
            Some(v) => json_parsed(text@) == Some(json_model(v)),
            None => json_parsed(text@) is None,
        },
{
    serde_json::from_str::<serde_json::Value>(text).ok()
}

/// `serde_json::to_string` of a value: its JSON text, or the `Display` text
/// of the error. The text depends on what the value holds and on nothing
/// else: the members of an object are written in the order of their keys.
#[verifier::external_body]
pub(crate) fn json_render(v: &serde_json::Value) -> (r: Result<String, String>)
    ensures
        match r {
            Ok(text) => json_rendered(json_model(*v)) == Ok::<Seq<char>, Seq<char>>(text@),
            Err(reason) => json_rendered(json_model(*v)) == Err::<Seq<char>, Seq<char>>(
                reason@,
            ),
        },
{
    match serde_json::to_string(v) {
        Ok(text) => Ok(text),
        Err(e) => Err(e.to_string()),
    }
}

/// `serde_json::Value::get` with a string key: the member under that key
/// when the value is an object that has it, and nothing otherwise.
#[verifier::external_body]
pub(crate) fn json_get<'a>(v: &'a serde_json::Value, key: &str) -> (r: Option<
    &'a serde_json::Value,
>)
    ensures
        match r {
            Some(x) => member(json_model(*v), key@) == Some(json_model(*x)),
            None => member(json_model(*v), key@) is None,
        },
{
    v.get(key)
}

/// `serde_json::Value::as_bool`: the boolean when the value is one.
#[verifier::external_body]
pub(crate) fn json_as_bool(v: &serde_json::Value) -> (r: Option<bool>)
    ensures
        r == (match json_model(*v) {
            JsonModel::Bool(b) => Some(b),
            _ => None,
        }),
{
    v.as_bool()
}

/// `serde_json::Value::as_str`: the text when the value is a string.
#[verifier::external_body]
pub(crate) fn json_as_str<'a>(v: &'a serde_json::Value) -> (r: Option<&'a str>)
    ensures
        match r {
            Some(s) => json_model(*v) == JsonModel::Text(s@),
            None => !(json_model(*v) is Text),
        },
{
    v.as_str()
}

/// `serde_json::Value::as_u64`: the number when the value is a non-negative
/// integer that fits in 64 bits.
#[verifier::external_body]
pub(crate) fn json_as_u64(v: &serde_json::Value) -> (r: Option<u64>)
    ensures
        r == (match json_model(*v) {
            JsonModel::Number(JsonNumber::Unsigned(n)) => Some(n),
            _ => None,
        }),
{
    v.as_u64()
}

/// `serde_json::Value::is_null`: whether the value is `null`.
#[verifier::external_body]
pub(crate) fn json_is_null(v: &serde_json::Value) -> (r: bool)
    ensures
        r == (json_model(*v) is Null),
{
    v.is_null()
}

/// `Clone::clone` of a value: an equal value.
#[verifier::external_body]
pub(crate) fn json_clone(v: &serde_json::Value) -> (r: serde_json::Value)
    ensures
        r == *v,
{
    v.clone()
}

/// `serde_json::Value::String`: the JSON string that holds the given text.
#[verifier::external_body]
pub(crate) fn json_string(s: &str) -> (r: serde_json::Value)
    ensures
        json_model(r) == JsonModel::Text(s@),
{
    serde_json::Value::String(s.to_owned())
}

/// `serde_json::Value::Object` of `serde_json::Map::new`: the object without
/// members.
#[verifier::external_body]
pub(crate) fn json_empty_object() -> (r: serde_json::Value)
    ensures
        json_model(r) == empty_object(),
{
    serde_json::Value::Object(serde_json::Map::new())
}

/// `IndexMut` of a value with a string key, assigned to: on an object, the
/// member under `key` becomes `value`, whether or not the key was present.
/// On anything but an object or `null` the index panics, and on `null` it
/// makes an object; only objects are admitted.
#[verifier::external_body]
pub(crate) fn json_set_member(object: &mut serde_json::Value, key: &str, value: serde_json::Value)
    requires
        json_model(*old(object)) is Object,
    ensures
        json_model(*final(object)) == with_member(json_model(*old(object)), key@, json_model(value)),
{
    object[key] = value;
}

} // verus!
