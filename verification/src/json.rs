//! JSON documents, written by `serde_json`.
//!
//! The library builds a `serde_json::Value` and has it rendered; it never looks inside
//! one. What a value holds is spoken of through [`JsonDoc`], and the text that
//! `serde_json` writes for a document through [`json_text`]. Nothing in this file is
//! proved: each function states what the `serde_json` item it calls does.

use vstd::prelude::*;

verus! {

/// The JSON document that a `serde_json::Value` holds. The library builds strings,
/// arrays and objects only; the other variants are there so that every value has
/// its document.
pub enum JsonDoc {
    Null,
    Bool(bool),
    /// A number, by the characters it is written with.
    Number(Seq<char>),
    Text(Seq<char>),
    List(Seq<JsonDoc>),
    /// Members by key. A key occurs once; the order of insertion is not kept.
    Object(Map<Seq<char>, JsonDoc>),
}

/// `serde_json::Value`, carried through without a look inside.
#[verifier::external_type_specification]
#[verifier::external_body]
pub struct ExJsonValue(serde_json::Value);

/// `serde_json::Map`, carried through without a look inside.
#[verifier::external_type_specification]
#[verifier::external_body]
#[verifier::reject_recursive_types(K)]
#[verifier::reject_recursive_types(V)]
pub struct ExJsonMap<K, V>(serde_json::Map<K, V>);

/// The members of a JSON object while it is put together.
pub type JsonMap = serde_json::Map<String, serde_json::Value>;

/// The document that `value` holds.
pub uninterp spec fn json_doc(value: serde_json::Value) -> JsonDoc;

/// The members that `map` holds, each key with the document of its value.
pub uninterp spec fn json_members(map: serde_json::Map<String, serde_json::Value>) -> Map<
    Seq<char>,
    JsonDoc,
>;

/// The compact text that `serde_json` writes for a document: what `to_string`
/// returns for a value that holds it.
pub uninterp spec fn json_text(doc: JsonDoc) -> Seq<char>;

/// `serde_json::Value::String`: the value that holds `text` as a JSON string.
#[verifier::external_body]
pub(crate) fn json_string(text: &str) -> (value: serde_json::Value)
    ensures
        json_doc(value) == JsonDoc::Text(text@),
{
    serde_json::Value::String(text.to_string())
}

/// `serde_json::Value::Array`: the value that holds `items`, in their order, as a
/// JSON array.
#[verifier::external_body]
pub(crate) fn json_array(items: Vec<serde_json::Value>) -> (value: serde_json::Value)
    ensures
        json_doc(value) == JsonDoc::List(items@.map_values(|item| json_doc(item))),
{
    serde_json::Value::Array(items)
}

/// `serde_json::Map::new`: a map without members.
#[verifier::external_body]
pub(crate) fn json_map_new() -> (fresh: JsonMap)
    ensures
        json_members(fresh) == (Map::<Seq<char>, JsonDoc>::empty()),
{
    serde_json::Map::new()
}

/// `serde_json::Map::insert`: afterwards `key` stands for `value`, whether or not the
/// map had a member under `key` before; the other members are as they were.
#[verifier::external_body]
pub(crate) fn json_map_insert(map: &mut JsonMap, key: &str, value: serde_json::Value)
    ensures
        json_members(*final(map)) == json_members(*old(map)).insert(key@, json_doc(value)),
{
    map.insert(key.to_string(), value);
}

/// `serde_json::Value::Object`: the value that holds the members of `map` as a JSON
/// object.
#[verifier::external_body]
pub(crate) fn json_object(map: JsonMap) -> (value: serde_json::Value)
    ensures
        json_doc(value) == JsonDoc::Object(json_members(map)),
{
    serde_json::Value::Object(map)
}

/// `to_string` of a `serde_json::Value`: the compact JSON text of the document that
/// the value holds.
#[verifier::external_body]
pub(crate) fn json_to_string(value: &serde_json::Value) -> (text: String)
    ensures
        text@ == json_text(json_doc(*value)),
{
    value.to_string()
}

} // verus!
