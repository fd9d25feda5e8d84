//! The JSON values that the driver protocol carries, as serde_json holds them.
//!
//! `serde_json::Value` and `serde_json::Map` are opaque to Verus. What a value
//! is, one level deep, is named by `json_value`; what a map holds is named by
//! `json_object`. The wrappers below state, over these two names, what each
//! serde_json call that this library makes does.
use vstd::prelude::*;

verus! {

#[verifier::external_type_specification]
#[verifier::external_body]
pub struct ExJsonValue(serde_json::Value);

#[verifier::external_type_specification]
#[verifier::external_body]
pub struct ExJsonNumber(serde_json::Number);

#[verifier::external_type_specification]
#[verifier::external_body]
#[verifier::reject_recursive_types(K)]
#[verifier::reject_recursive_types(V)]
pub struct ExJsonMap<K, V>(serde_json::Map<K, V>);

/// A JSON object as serde_json holds it: string keys and JSON values.
pub type JsonMap = serde_json::Map<String, serde_json::Value>;

/// One level of a JSON value: which variant it is, with its payload.
/// Nested values are kept as the serde_json values themselves.
pub enum JsonValue {
    Null,
    Bool(bool),
    Number(serde_json::Number),
    String(Seq<char>),
    Array(Seq<serde_json::Value>),
    Object(JsonMap),
}

/// What a `serde_json::Value` is (its variant and payload).
pub uninterp spec fn json_value(v: serde_json::Value) -> JsonValue;

/// What a `serde_json::Map<String, Value>` holds: each key, by its characters,
/// mapped to its value.
pub uninterp spec fn json_object(m: JsonMap) -> Map<Seq<char>, serde_json::Value>;

/// The entry of a JSON value under `key`, as `Value::get` with a string index
/// finds it: the object's entry, and nothing for any value that is not an
/// object.
pub open spec fn json_field(v: serde_json::Value, key: Seq<char>) -> Option<serde_json::Value> {
    match json_value(v) {
        JsonValue::Object(m) => if json_object(m).contains_key(key) {
            Some(json_object(m)[key])
        } else {
            None
        },
        _ => None,
    }
}

/// The entry of a JSON object under `key`, if it has one.
pub open spec fn json_entry(m: JsonMap, key: Seq<char>) -> Option<serde_json::Value> {
    if json_object(m).contains_key(key) {
        Some(json_object(m)[key])
    } else {
        None
    }
}

/// The characters of a JSON string value; nothing for any other value.
pub open spec fn json_str(v: serde_json::Value) -> Option<Seq<char>> {
    match json_value(v) {
        JsonValue::String(s) => Some(s),
        _ => None,
    }
}

/// `serde_json::Map::new`: a map that holds nothing.
#[verifier::external_body]
pub(crate) fn json_map_new() -> (res: JsonMap)
    ensures
        json_object(res).is_empty(),
{
    serde_json::Map::new()
}

/// `serde_json::Map::insert`: afterwards the map holds `v` under `k`, and every
/// other entry as before; it hands back the value that `k` held before, if any.
#[verifier::external_body]
pub(crate) fn json_map_insert(m: &mut JsonMap, k: String, v: serde_json::Value) -> (prev: Option<
    serde_json::Value,
>)
    ensures
        json_object(*final(m)) == json_object(*old(m)).insert(k@, v),
        prev == json_entry(*old(m), k@),
{
    m.insert(k, v)
}

/// `serde_json::Map::get` with a `&str` key: the entry under that key.
#[verifier::external_body]
pub(crate) fn json_map_get<'a>(m: &'a JsonMap, key: &str) -> (r: Option<&'a serde_json::Value>)
    ensures
        match r {
            Some(v) => json_entry(*m, key@) == Some(*v),
            None => json_entry(*m, key@) is None,
        },
{
    m.get(key)
}

/// `serde_json::Value::get` with a `&str` index: the object's entry under that
/// key, and nothing for a value that is not an object.
#[verifier::external_body]
pub(crate) fn json_value_get<'a>(v: &'a serde_json::Value, key: &str) -> (r: Option<
    &'a serde_json::Value,
>)
    ensures
        match r {
            Some(e) => json_field(*v, key@) == Some(*e),
            None => json_field(*v, key@) is None,
        },
{
    v.get(key)
}

/// `serde_json::Value::as_str`: the characters of a string value, nothing for
/// any other value.
#[verifier::external_body]
pub(crate) fn json_as_str<'a>(v: &'a serde_json::Value) -> (r: Option<&'a str>)
    ensures
        match r {
            Some(s) => json_str(*v) == Some(s@),
            None => json_str(*v) is None,
        },
{
    v.as_str()
}

/// `Clone::clone` on `serde_json::Value`, whose impl is derived: a value equal
/// to the original.
pub assume_specification[ <serde_json::Value as Clone>::clone ](v: &serde_json::Value) -> (res:
    serde_json::Value)
    ensures
        res == *v,
;

/// The variant `serde_json::Value::Null`.
#[verifier::external_body]
pub(crate) fn json_null() -> (v: serde_json::Value)
    ensures
        json_value(v) == JsonValue::Null,
{
    serde_json::Value::Null
}

/// The variant `serde_json::Value::String`, holding `s`.
#[verifier::external_body]
pub(crate) fn json_string(s: String) -> (v: serde_json::Value)
    ensures
        json_value(v) == JsonValue::String(s@),
{
    serde_json::Value::String(s)
}

/// The variant `serde_json::Value::Object`, holding `m`.
#[verifier::external_body]
pub(crate) fn json_object_value(m: JsonMap) -> (v: serde_json::Value)
    ensures
        json_value(v) == JsonValue::Object(m),
{
    serde_json::Value::Object(m)
}

} // verus!
