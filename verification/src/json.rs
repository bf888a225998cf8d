//! JSON values of `serde_json`, as the ledger commands build them, and the
//! JSON data that the commands send to the ledger.
use vstd::prelude::*;

verus! {

#[verifier::external_type_specification]
#[verifier::external_body]
pub struct ExJsonValue(serde_json::Value);

#[verifier::external_type_specification]
#[verifier::external_body]
#[verifier::reject_recursive_types(K)]
#[verifier::reject_recursive_types(V)]
pub struct ExJsonMap<K, V>(serde_json::Map<K, V>);

/// A JSON object of `serde_json`: string keys, JSON values.
pub type JsonObject = serde_json::Map<String, serde_json::Value>;

/// What a JSON value holds. A number is an integer, or a float given by
/// the bits of its `f64`.
pub enum JsonModel {
    Null,
    Bool(bool),
    Int(int),
    Float(u64),
    Str(Seq<char>),
    Array(Seq<JsonModel>),
    Object(Map<Seq<char>, JsonModel>),
}

/// What a `serde_json::Value` holds.
pub uninterp spec fn json_value_model(v: serde_json::Value) -> JsonModel;

/// The entries of a `serde_json::Map`, keyed by the key's characters.
pub uninterp spec fn json_map_model(m: JsonObject) -> Map<Seq<char>, JsonModel>;

/// The compact text that `serde_json` writes for a value (its `Display`).
pub uninterp spec fn json_text(v: JsonModel) -> Seq<char>;

/// The text that `serde_json`'s `Debug` writes for a value.
pub uninterp spec fn json_debug(v: JsonModel) -> Seq<char>;

/// The entries of an empty object.
pub open spec fn no_entries() -> Map<Seq<char>, JsonModel> {
    Map::empty()
}

/// `serde_json::Map::new`: an empty map.
#[verifier::external_body]
pub(crate) fn json_map_new() -> (m: JsonObject)
    ensures
        json_map_model(m) == no_entries(),
{
    serde_json::Map::new()
}

/// `serde_json::Map::insert`: the key now maps to the value; the value that
/// it mapped to before, if any, is handed back.
#[verifier::external_body]
pub(crate) fn json_map_insert(
    m: &mut JsonObject,
    k: String,
    v: serde_json::Value,
) -> (previous: Option<serde_json::Value>)
    ensures
        json_map_model(*final(m)) == json_map_model(*old(m)).insert(k@, json_value_model(v)),
        previous is Some <==> json_map_model(*old(m)).dom().contains(k@),
        previous matches Some(p) ==> json_value_model(p) == json_map_model(*old(m))[k@],
{
    m.insert(k, v)
}

/// `serde_json::Value::from(&str)`: a JSON string.
#[verifier::external_body]
pub(crate) fn json_from_str(s: &str) -> (v: serde_json::Value)
    ensures
        json_value_model(v) == JsonModel::Str(s@),
{
    serde_json::Value::from(s)
}

/// `serde_json::Value::from(i32)`: a JSON integer.
#[verifier::external_body]
pub(crate) fn json_from_i32(n: i32) -> (v: serde_json::Value)
    ensures
        json_value_model(v) == JsonModel::Int(n as int),
{
    serde_json::Value::from(n)
}

/// The JSON strings of a list of string slices.
pub open spec fn str_array_model(items: Seq<&str>) -> Seq<JsonModel> {
    items.map_values(|s: &str| JsonModel::Str(s@))
}

/// `serde_json::Value::from(Vec<&str>)`: a JSON array of the strings, in order.
#[verifier::external_body]
pub(crate) fn json_from_strs(items: Vec<&str>) -> (v: serde_json::Value)
    ensures
        json_value_model(v) == JsonModel::Array(str_array_model(items@)),
{
    serde_json::Value::from(items)
}

/// `serde_json::Value::from(Map)`: a JSON object with the map's entries.
#[verifier::external_body]
pub(crate) fn json_from_map(m: JsonObject) -> (v: serde_json::Value)
    ensures
        json_value_model(v) == JsonModel::Object(json_map_model(m)),
{
    serde_json::Value::from(m)
}

/// `serde_json::Value`'s `Display` (through `to_string`): its compact JSON
/// text. The contract names that text `json_text` of what the value holds;
/// the serialization itself (escaping, the order of an object's keys) is
/// left unsaid.
#[verifier::external_body]
pub(crate) fn json_to_string(v: &serde_json::Value) -> (s: String)
    ensures
        s@ == json_text(json_value_model(*v)),
{
    v.to_string()
}

/// `serde_json::Value`'s `Debug` (through `format!("{:?}")`). The contract
/// names that text `json_debug` of what the value holds, and says no more.
#[verifier::external_body]
pub(crate) fn json_debug_string(v: &serde_json::Value) -> (s: String)
    ensures
        s@ == json_debug(json_value_model(*v)),
{
    format!("{:?}", v)
}

} // verus!
