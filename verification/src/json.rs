//! JSON values of `serde_json`, and what their contents are.
//!
//! `serde_json::Value` and its object type are opaque to the verifier. Their
//! contents are the specification values [`json`] and [`members`]; the functions
//! of this module are the only ones that look inside.

use serde_json::Value;
use vstd::prelude::*;

verus! {

/// What a JSON value is.
pub enum Json {
    Null,
    Bool(bool),
    /// A number held as an unsigned integer.
    Unsigned(nat),
    /// A number held as a negative integer.
    Negative(int),
    /// A number held in floating point, by the bits that encode it.
    Float(nat),
    Text(Seq<char>),
    List(Seq<Json>),
    Record(Map<Seq<char>, Json>),
}

/// The members of a JSON object, by key.
pub type Members = Map<Seq<char>, Json>;

#[verifier::external_type_specification]
#[verifier::external_body]
pub struct ExValue(serde_json::Value);

#[verifier::external_type_specification]
#[verifier::external_body]
#[verifier::reject_recursive_types(K)]
#[verifier::reject_recursive_types(V)]
pub struct ExMap<K, V>(serde_json::Map<K, V>);

/// The contents of a `serde_json::Value`.
pub uninterp spec fn json(value: Value) -> Json;

/// The contents of a `serde_json::Map`: the content of each member under its key.
pub uninterp spec fn members(map: serde_json::Map<String, Value>) -> Members;

/// What `serde_json::from_str` reads a text as: `None` where the text is not
/// one JSON value.
pub uninterp spec fn parsed(text: Seq<char>) -> Option<Json>;

/// `serde_json::Value::default`: the JSON null.
#[verifier::external_body]
pub(crate) fn null() -> (value: Value)
    ensures
        json(value) == Json::Null,
{
    Value::default()
}

/// `serde_json::Value::from` on a string slice: the JSON string with those
/// characters.
#[verifier::external_body]
pub(crate) fn text(s: &str) -> (value: Value)
    ensures
        json(value) == Json::Text(s@),
{
    Value::from(s)
}

/// `serde_json::Value::from` on a `bool`: the JSON boolean.
#[verifier::external_body]
pub(crate) fn boolean(b: bool) -> (value: Value)
    ensures
        json(value) == Json::Bool(b),
{
    Value::from(b)
}

/// `serde_json::Value::from` on a `u32`: the JSON number, held as an unsigned
/// integer.
#[verifier::external_body]
pub(crate) fn unsigned(n: u32) -> (value: Value)
    ensures
        json(value) == Json::Unsigned(n as nat),
{
    Value::from(n)
}

/// `serde_json::Value::from` on an object map: the JSON object with its members.
#[verifier::external_body]
pub(crate) fn record(map: serde_json::Map<String, Value>) -> (value: Value)
    ensures
        json(value) == Json::Record(members(map)),
{
    Value::from(map)
}

/// `serde_json::Map::new`: an object map with no members.
#[verifier::external_body]
pub(crate) fn no_members() -> (map: serde_json::Map<String, Value>)
    ensures
        members(map) == Members::empty(),
{
    serde_json::Map::new()
}

/// `serde_json::Map::insert`: the member under `key` becomes `value`, whether or
/// not there was one before; the others stay. What was there before is dropped.
#[verifier::external_body]
pub(crate) fn put(map: &mut serde_json::Map<String, Value>, key: &str, value: Value)
    ensures
        members(*final(map)) == members(*old(map)).insert(key@, json(value)),
{
    map.insert(key.to_string(), value);
}

/// `serde_json::Map::get`: the member under `key`, if there is one.
#[verifier::external_body]
pub(crate) fn member<'a>(map: &'a serde_json::Map<String, Value>, key: &str) -> (value: Option<
    &'a Value,
>)
    ensures
        value is Some <==> members(*map).contains_key(key@),
        value matches Some(v) ==> json(*v) == members(*map)[key@],
{
    map.get(key)
}

/// `serde_json::Value::as_object`: the object map, if the value is an object.
#[verifier::external_body]
pub(crate) fn as_record(value: &Value) -> (map: Option<&serde_json::Map<String, Value>>)
    ensures
        map is Some <==> json(*value) is Record,
        map matches Some(m) ==> json(*value) == Json::Record(members(*m)),
{
    value.as_object()
}

/// `serde_json::Value::as_str`: the characters, if the value is a string.
#[verifier::external_body]
pub(crate) fn as_text(value: &Value) -> (s: Option<&str>)
    ensures
        s is Some <==> json(*value) is Text,
        s matches Some(t) ==> json(*value) == Json::Text(t@),
{
    value.as_str()
}

/// `serde_json::Value::clone`: a value with the same contents.
pub assume_specification[ <serde_json::Value as Clone>::clone ](value: &serde_json::Value) -> (res:
    serde_json::Value)
    ensures
        json(res) == json(*value),
;

/// `serde_json::from_str` into a `serde_json::Value`: the value that the text
/// denotes, if it is one JSON value. What a given text is read as is not stated,
/// only that the same text is always read alike.
#[verifier::external_body]
pub(crate) fn parse(text: &str) -> (value: Option<Value>)
    ensures
        value is Some <==> parsed(text@) is Some,
        value matches Some(v) ==> parsed(text@) == Some(json(v)),
{
    serde_json::from_str(text).ok()
}

} // verus!
