//! JSON values and objects of serde_json, as far as the memo format reads and
//! writes them. Everything here is believed of serde_json, not proved.

use vstd::prelude::*;

verus! {

#[verifier::external_type_specification]
#[verifier::external_body]
pub struct ExJsonValue(serde_json::Value);

#[verifier::external_type_specification]
#[verifier::external_body]
#[verifier::reject_recursive_types(K)]
#[verifier::reject_recursive_types(V)]
pub struct ExJsonMap<K, V>(serde_json::Map<K, V>);

/// A JSON object: string keys, each with one JSON value.
pub type JsonObject = serde_json::Map<String, serde_json::Value>;

/// What a JSON value holds. A number stands as the text that writes it.
pub enum JsonValue {
    Null,
    Bool(bool),
    Number(Seq<char>),
    Text(Seq<char>),
    Array(Seq<JsonValue>),
    Object(Map<Seq<char>, JsonValue>),
}

/// What the JSON value `v` holds.
pub uninterp spec fn json_model(v: serde_json::Value) -> JsonValue;

/// The entries of the JSON object `m`: its keys, each with what its value holds.
pub uninterp spec fn json_entries(m: serde_json::Map<String, serde_json::Value>) -> Map<
    Seq<char>,
    JsonValue,
>;

/// The entries of an object that has none.
pub open spec fn no_entries() -> Map<Seq<char>, JsonValue> {
    Map::empty()
}

/// What `serde_json::from_str` reads from `text` as a JSON value, `None`
/// where it reports an error.
pub uninterp spec fn json_of_text(text: Seq<char>) -> Option<JsonValue>;

/// The compact text that serde_json writes for a JSON value.
pub uninterp spec fn json_text(j: JsonValue) -> Seq<char>;

/// `serde_json::from_str` at the type `Value`: the value read from the whole
/// of `text`, or `None` for any error.
#[verifier::external_body]
pub(crate) fn parse_json(text: &str) -> (r: Option<serde_json::Value>)
    ensures
        match r {
            Some(v) => json_of_text(text@) == Some(json_model(v)),
            None => json_of_text(text@) is None,
        },
{
    serde_json::from_str::<serde_json::Value>(text).ok()
}

/// `Value`'s `Display`, which writes the value as compact JSON.
#[verifier::external_body]
pub(crate) fn render_json(v: &serde_json::Value) -> (r: String)
    ensures
        r@ == json_text(json_model(*v)),
{
    v.to_string()
}

/// `Value::as_object`: the object inside `v`, if `v` is an object.
#[verifier::external_body]
pub(crate) fn value_as_object(v: &serde_json::Value) -> (r: Option<&JsonObject>)
    ensures
        match r {
            Some(m) => json_model(*v) == JsonValue::Object(json_entries(*m)),
            None => !(json_model(*v) is Object),
        },
{
    v.as_object()
}

/// `Value::as_str`: the text inside `v`, if `v` is a string.
#[verifier::external_body]
pub(crate) fn value_as_str(v: &serde_json::Value) -> (r: Option<&str>)
    ensures
        match r {
            Some(s) => json_model(*v) == JsonValue::Text(s@),
            None => !(json_model(*v) is Text),
        },
{
    v.as_str()
}

/// The variant `Value::String` around `s`.
#[verifier::external_body]
pub(crate) fn value_from_text(s: String) -> (v: serde_json::Value)
    ensures
        json_model(v) == JsonValue::Text(s@),
{
    serde_json::Value::String(s)
}

/// The variant `Value::Object` around `m`.
#[verifier::external_body]
pub(crate) fn value_from_object(m: JsonObject) -> (v: serde_json::Value)
    ensures
        json_model(v) == JsonValue::Object(json_entries(m)),
{
    serde_json::Value::Object(m)
}

/// `Map::new`: an object without entries.
#[verifier::external_body]
pub(crate) fn object_new() -> (m: JsonObject)
    ensures
        json_entries(m) == no_entries(),
{
    serde_json::Map::new()
}

/// `Map::insert`: `key` now has `value`, whether or not it had one before;
/// the other entries stay.
#[verifier::external_body]
pub(crate) fn object_insert(m: &mut JsonObject, key: String, value: serde_json::Value)
    ensures
        json_entries(*final(m)) == json_entries(*old(m)).insert(key@, json_model(value)),
{
    m.insert(key, value);
}

/// `Map::get`: the value that `key` has in `m`, if it has one.
#[verifier::external_body]
pub(crate) fn object_get<'a>(m: &'a JsonObject, key: &str) -> (r: Option<&'a serde_json::Value>)
    ensures
        match r {
            Some(v) => json_entries(*m).dom().contains(key@) && json_entries(*m)[key@]
                == json_model(*v),
            None => !json_entries(*m).dom().contains(key@),
        },
{
    m.get(key)
}

/// `Map::contains_key`: whether `key` has a value in `m`.
#[verifier::external_body]
pub(crate) fn object_contains_key(m: &JsonObject, key: &str) -> (r: bool)
    ensures
        r == json_entries(*m).dom().contains(key@),
{
    m.contains_key(key)
}

/// `Map::remove`: `key` has no value afterwards; the other entries stay.
#[verifier::external_body]
pub(crate) fn object_remove(m: &mut JsonObject, key: &str)
    ensures
        json_entries(*final(m)) == json_entries(*old(m)).remove(key@),
{
    m.remove(key);
}

} // verus!
