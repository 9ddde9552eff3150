//! JSON documents: their mathematical value, and the calls into `serde_json` that build
//! them.

use vstd::prelude::*;

verus! {

/// A JSON value of `serde_json`. What it holds is [`json`].
#[verifier::external_type_specification]
#[verifier::external_body]
pub struct ExValue(serde_json::Value);

/// A JSON object of `serde_json`. What it holds is [`json_entries`].
#[verifier::external_type_specification]
#[verifier::external_body]
#[verifier::reject_recursive_types(K)]
#[verifier::reject_recursive_types(V)]
pub struct ExMap<K, V>(serde_json::Map<K, V>);

/// A JSON document as a mathematical value. A number is given by its text.
#[verifier::ext_equal]
pub enum Json {
    Null,
    Bool(bool),
    Number(Seq<char>),
    String(Seq<char>),
    Array(Seq<Json>),
    Object(Map<Seq<char>, Json>),
}

/// The fields of a JSON object.
pub type JsonEntries = Map<Seq<char>, Json>;

/// The document that a `serde_json::Value` holds.
pub uninterp spec fn json(value: serde_json::Value) -> Json;

/// The fields that a `serde_json::Map` holds, each with the document under it.
pub uninterp spec fn json_entries(
    object: serde_json::Map<String, serde_json::Value>,
) -> JsonEntries;

/// Calls `serde_json::Map::new`, which makes an object without fields.
#[verifier::external_body]
fn empty_object() -> (object: serde_json::Map<String, serde_json::Value>)
    ensures
        json_entries(object) == JsonEntries::empty(),
{
    serde_json::Map::new()
}

/// Calls `serde_json::Map::insert`, which puts `value` under `key`, in the place of what
/// stood there, and returns what stood there.
#[verifier::external_body]
fn insert_field(
    object: &mut serde_json::Map<String, serde_json::Value>,
    key: String,
    value: serde_json::Value,
) -> (previous: Option<serde_json::Value>)
    ensures
        json_entries(*final(object)) == json_entries(*old(object)).insert(key@, json(value)),
        previous is Some == json_entries(*old(object)).contains_key(key@),
        previous is Some ==> json(previous->0) == json_entries(*old(object))[key@],
{
    object.insert(key, value)
}

/// Calls `serde_json::Value::from` on an object, which makes it a value with the same
/// fields.
#[verifier::external_body]
fn object_value(object: serde_json::Map<String, serde_json::Value>) -> (value: serde_json::Value)
    ensures
        json(value) == Json::Object(json_entries(object)),
{
    serde_json::Value::from(object)
}

/// Calls `serde_json::Value::from` on a string, which makes it a JSON string with the same
/// text.
#[verifier::external_body]
pub(crate) fn string_value(text: String) -> (value: serde_json::Value)
    ensures
        json(value) == Json::String(text@),
{
    serde_json::Value::from(text)
}

/// Gives `serde_json::Value::Null`, the JSON null.
#[verifier::external_body]
pub(crate) fn null_value() -> (value: serde_json::Value)
    ensures
        json(value) == Json::Null,
{
    serde_json::Value::Null
}

/// The object whose only field is `key`.
pub open spec fn single(key: Seq<char>, value: Json) -> Json {
    Json::Object(JsonEntries::empty().insert(key, value))
}

/// Builds the object whose only field is `key`.
pub(crate) fn single_field(key: &str, value: serde_json::Value) -> (object: serde_json::Value)
    ensures
        json(object) == single(key@, json(value)),
{
    let mut object = empty_object();
    let _ = insert_field(&mut object, key.to_string(), value);
    object_value(object)
}

/// The object with the three given fields; a later field takes the place of an earlier one
/// with the same key.
pub open spec fn triple(
    first: (Seq<char>, Json),
    second: (Seq<char>, Json),
    third: (Seq<char>, Json),
) -> Json {
    Json::Object(
        JsonEntries::empty().insert(first.0, first.1).insert(second.0, second.1).insert(
            third.0,
            third.1,
        ),
    )
}

/// Builds an object with three fields.
pub(crate) fn three_fields(
    first: (&str, serde_json::Value),
    second: (&str, serde_json::Value),
    third: (&str, serde_json::Value),
) -> (object: serde_json::Value)
    ensures
        json(object) == triple(
            (first.0@, json(first.1)),
            (second.0@, json(second.1)),
            (third.0@, json(third.1)),
        ),
{
    let mut object = empty_object();
    let _ = insert_field(&mut object, first.0.to_string(), first.1);
    let _ = insert_field(&mut object, second.0.to_string(), second.1);
    let _ = insert_field(&mut object, third.0.to_string(), third.1);
    object_value(object)
}

} // verus!
