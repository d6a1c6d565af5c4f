//! JSON values as `serde_json` builds and writes them. Nothing in this file
//! is proved: each item states what the named function of `serde_json` does.

use vstd::prelude::*;

verus! {

/// `serde_json::Value`, a JSON value.
#[verifier::external_type_specification]
#[verifier::external_body]
pub struct ExValue(serde_json::Value);

/// `serde_json::Map`, the members of a JSON object, ordered by their keys.
#[verifier::external_type_specification]
#[verifier::external_body]
#[verifier::reject_recursive_types(K)]
#[verifier::reject_recursive_types(V)]
pub struct ExMap<K, V>(serde_json::Map<K, V>);

/// The members of a JSON object under construction.
pub type JsonObject = serde_json::Map<String, serde_json::Value>;

/// A JSON value.
pub enum JsonDoc {
    Null,
    /// `true` or `false`.
    Flag(bool),
    /// A number, by the digits that stand for it in JSON text.
    Number(Seq<char>),
    /// A string, by its characters.
    Text(Seq<char>),
    /// An array, by its items.
    Array(Seq<JsonDoc>),
    /// An object, by its members.
    Object(Map<Seq<char>, JsonDoc>),
}

/// What a `serde_json::Value` holds.
pub uninterp spec fn json_doc(value: serde_json::Value) -> JsonDoc;

/// The members that a `serde_json::Map` holds, each under its key.
pub uninterp spec fn json_members(object: JsonObject) -> Map<Seq<char>, JsonDoc>;

/// The text that `serde_json::to_string` writes for a vector of these
/// values, or `None` where it fails on them.
pub uninterp spec fn json_array_text(items: Seq<JsonDoc>) -> Option<Seq<char>>;

/// What each of these values holds.
pub open spec fn json_docs(items: Seq<serde_json::Value>) -> Seq<JsonDoc> {
    items.map_values(|value: serde_json::Value| json_doc(value))
}

/// `Value::from` on a string slice: the JSON string with its characters.
#[verifier::external_body]
pub(crate) fn json_string(text: &str) -> (value: serde_json::Value)
    ensures
        json_doc(value) == JsonDoc::Text(text@),
{
    serde_json::Value::from(text)
}

/// `Value::from` on a `bool`: the JSON boolean of that value.
#[verifier::external_body]
pub(crate) fn json_bool(flag: bool) -> (value: serde_json::Value)
    ensures
        json_doc(value) == JsonDoc::Flag(flag),
{
    serde_json::Value::from(flag)
}

/// `Map::new`: a map without members.
#[verifier::external_body]
pub(crate) fn json_object_new() -> (object: JsonObject)
    ensures
        json_members(object) == (Map::<Seq<char>, JsonDoc>::empty()),
{
    serde_json::Map::new()
}

/// `Map::insert`: the map holds `value` under `key` afterwards, in place of
/// what it held under that key before, and its other members as before.
#[verifier::external_body]
pub(crate) fn json_object_insert(object: &mut JsonObject, key: String, value: serde_json::Value)
    ensures
        json_members(*final(object)) == json_members(*old(object)).insert(key@, json_doc(value)),
{
    object.insert(key, value);
}

/// `Value::from` on a `Map`: the JSON object with the members of the map.
#[verifier::external_body]
pub(crate) fn json_object(object: JsonObject) -> (value: serde_json::Value)
    ensures
        json_doc(value) == JsonDoc::Object(json_members(object)),
{
    serde_json::Value::from(object)
}

/// `serde_json::to_string` on a vector of values: the JSON text of the
/// array, which depends on nothing but what the values hold, or `None` where
/// the call returns an error. For a vector without items it writes an
/// opening and a closing bracket and nothing else.
#[verifier::external_body]
pub(crate) fn json_array_to_string(items: &Vec<serde_json::Value>) -> (text: Option<String>)
    ensures
        match text {
            Some(text) => {
                &&& json_array_text(json_docs(items@)) == Some(text@)
                &&& items@.len() == 0 ==> text@ == "[]"@
            },
            None => json_array_text(json_docs(items@)) is None && items@.len() > 0,
        },
{
    serde_json::to_string(items).ok()
}

} // verus!
