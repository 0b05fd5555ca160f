use vstd::prelude::*;

verus! {

/// Spec-level picture of a JSON tree, as far as this library builds one:
/// text, arrays, and objects. Other JSON value kinds only pass through the
/// library unread, so the model does not tell them apart.
pub enum JsonData {
    /// A JSON string.
    Str(Seq<char>),
    /// A JSON array, in element order.
    Arr(Seq<JsonData>),
    /// A JSON object: its keys and the trees they map to.
    Obj(Map<Seq<char>, JsonData>),
}

#[verifier::external_type_specification]
#[verifier::external_body]
pub struct ExValue(serde_json::Value);

#[verifier::external_type_specification]
#[verifier::external_body]
#[verifier::reject_recursive_types(K)]
#[verifier::reject_recursive_types(V)]
pub struct ExJsonMap<K, V>(serde_json::Map<K, V>);

/// The JSON tree a `serde_json::Value` holds.
pub uninterp spec fn json_rep(v: serde_json::Value) -> JsonData;

/// The entries a `serde_json::Map` object holds: each key with the tree of its value.
pub uninterp spec fn obj_rep(m: serde_json::Map<String, serde_json::Value>) -> Map<
    Seq<char>,
    JsonData,
>;

/// The empty JSON object contents.
pub open spec fn obj_empty() -> Map<Seq<char>, JsonData> {
    Map::empty()
}

/// Relies on serde_json::Map::new: the fresh object map holds no entries.
pub assume_specification[ serde_json::Map::<String, serde_json::Value>::new ]() -> (res: serde_json::Map<String, serde_json::Value>)
    ensures
        obj_rep(res) == obj_empty(),
;

/// Relies on serde_json::Map::insert: the entry is added (replacing any entry
/// under the same key), and the previously stored value, if any, is returned.
pub assume_specification[ serde_json::Map::<String, serde_json::Value>::insert ](
    m: &mut serde_json::Map<String, serde_json::Value>,
    k: String,
    v: serde_json::Value,
) -> (prev: Option<serde_json::Value>)
    ensures
        obj_rep(*final(m)) == obj_rep(*old(m)).insert(k@, json_rep(v)),
        match prev {
            None => !obj_rep(*old(m)).dom().contains(k@),
            Some(p) => obj_rep(*old(m)).dom().contains(k@) && json_rep(p) == obj_rep(*old(m))[k@],
        },
;

/// Relies on serde_json::Value::clone: the copy holds the same JSON tree.
pub assume_specification[ <serde_json::Value as Clone>::clone ](v: &serde_json::Value) -> (r: serde_json::Value)
    ensures
        json_rep(r) == json_rep(*v),
;

/// Relies on serde_json::Value::String: the value holds the given text.
#[verifier::external_body]
pub(crate) fn json_string(s: String) -> (v: serde_json::Value)
    ensures
        json_rep(v) == JsonData::Str(s@),
{
    serde_json::Value::String(s)
}

/// Relies on serde_json::Value::Array: the value holds the given elements in order.
#[verifier::external_body]
pub(crate) fn json_array(items: Vec<serde_json::Value>) -> (v: serde_json::Value)
    ensures
        json_rep(v) == JsonData::Arr(items@.map_values(|e: serde_json::Value| json_rep(e))),
{
    serde_json::Value::Array(items)
}

/// Relies on serde_json::Value::Object: the value holds the given object map.
#[verifier::external_body]
pub(crate) fn json_object(m: serde_json::Map<String, serde_json::Value>) -> (v: serde_json::Value)
    ensures
        json_rep(v) == JsonData::Obj(obj_rep(m)),
{
    serde_json::Value::Object(m)
}

} // verus!
