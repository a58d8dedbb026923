//! Trusted interface to serde_json. The profile registry is a JSON document
//! of unknown shape; this module declares the outside types and gives each
//! call the pipeline makes a contract over two abstractions: `obj_entries`,
//! the key/value contents of a JSON object map, and a handful of named
//! results (`obj_value`, `json_string`, `json_text`, `parsed_json`,
//! `inserted_map`) for outside operations whose outcome is a function of
//! their arguments alone.

use vstd::prelude::*;

verus! {

#[verifier::external_type_specification]
#[verifier::external_body]
pub struct ExValue(serde_json::Value);

#[verifier::external_type_specification]
#[verifier::external_body]
#[verifier::reject_recursive_types(K)]
#[verifier::reject_recursive_types(V)]
pub struct ExMap<K, V>(serde_json::Map<K, V>);

#[verifier::external_type_specification]
#[verifier::external_body]
pub struct ExError(serde_json::Error);

/// The key/value contents of a JSON object map, keys as character sequences.
pub uninterp spec fn obj_entries(
    m: serde_json::Map<String, serde_json::Value>,
) -> Map<Seq<char>, serde_json::Value>;

/// The JSON object value holding exactly the map `m`.
pub uninterp spec fn obj_value(
    m: serde_json::Map<String, serde_json::Value>,
) -> serde_json::Value;

/// The JSON string value holding exactly the characters `s`.
pub uninterp spec fn json_string(s: Seq<char>) -> serde_json::Value;

/// The pretty-printed serialization of a JSON value.
pub uninterp spec fn json_text(v: serde_json::Value) -> Seq<char>;

/// What parsing a text as JSON yields: `None` when the text is not valid
/// JSON, otherwise the parsed value.
pub uninterp spec fn parsed_json(s: Seq<char>) -> Option<serde_json::Value>;

/// The object map `m` with `v` bound under the key spelled `k`.
pub uninterp spec fn inserted_map(
    m: serde_json::Map<String, serde_json::Value>,
    k: Seq<char>,
    v: serde_json::Value,
) -> serde_json::Map<String, serde_json::Value>;

/// Relies on serde_json::from_str: parsing is a function of the text alone;
/// it fails exactly when the text is not valid JSON.
#[verifier::external_body]
pub fn parse_json(s: &str) -> (r: Result<serde_json::Value, serde_json::Error>)
    ensures
        r matches Ok(v) ==> parsed_json(s@) == Some(v),
        r is Err ==> parsed_json(s@) is None,
{
    serde_json::from_str(s)
}

/// Relies on serde_json::to_string_pretty: the serialization of a value is a
/// function of the value alone, and it always succeeds on a `Value` — its
/// serializer never declines and its maps are keyed by strings.
#[verifier::external_body]
pub fn json_to_text(v: &serde_json::Value) -> (r: Result<String, serde_json::Error>)
    ensures
        r is Ok,
        r matches Ok(s) ==> s@ == json_text(*v),
{
    serde_json::to_string_pretty(v)
}

/// Relies on serde_json::Value being an enum whose `Object` variant holds
/// exactly one map: matching out the map succeeds exactly on object values,
/// and `Object` is injective.
#[verifier::external_body]
pub fn value_to_object(v: serde_json::Value) -> (r: Result<
    serde_json::Map<String, serde_json::Value>,
    serde_json::Value,
>)
    ensures
        r matches Ok(m) ==> v == obj_value(m) && (forall|
            m2: serde_json::Map<String, serde_json::Value>,
        |
            obj_value(m2) == v ==> m2 == m),
        r matches Err(e) ==> e == v && (forall|m2: serde_json::Map<String, serde_json::Value>|
            obj_value(m2) != v),
{
    match v {
        serde_json::Value::Object(m) => Ok(m),
        other => Err(other),
    }
}

/// Relies on serde_json::Value::Object: wrapping a map yields the object
/// value holding exactly that map.
#[verifier::external_body]
pub fn object_to_value(m: serde_json::Map<String, serde_json::Value>) -> (r: serde_json::Value)
    ensures
        r == obj_value(m),
{
    serde_json::Value::Object(m)
}

/// Relies on serde_json::Value::String: wrapping a string yields the JSON
/// string value holding exactly those characters.
#[verifier::external_body]
pub fn string_to_value(s: String) -> (r: serde_json::Value)
    ensures
        r == json_string(s@),
{
    serde_json::Value::String(s)
}

/// The contents of an object map with no entries.
pub open spec fn empty_entries() -> Map<Seq<char>, serde_json::Value> {
    Map::empty()
}

/// Relies on serde_json::Map::new: a new map is empty.
#[verifier::external_body]
pub fn map_new() -> (r: serde_json::Map<String, serde_json::Value>)
    ensures
        obj_entries(r) == empty_entries(),
{
    serde_json::Map::new()
}

/// Relies on serde_json::Map's Clone: the clone equals the original.
#[verifier::external_body]
pub fn map_clone(m: &serde_json::Map<String, serde_json::Value>) -> (r: serde_json::Map<
    String,
    serde_json::Value,
>)
    ensures
        r == *m,
{
    m.clone()
}

/// Relies on serde_json::Map::contains_key.
#[verifier::external_body]
pub fn map_contains(m: &serde_json::Map<String, serde_json::Value>, key: &str) -> (r: bool)
    ensures
        r == obj_entries(*m).dom().contains(key@),
{
    m.contains_key(key)
}

/// Relies on serde_json::Map::insert: binds `v` under `key`, leaving every
/// other entry in place; the resulting map is a function of the inputs alone.
#[verifier::external_body]
pub fn map_insert(
    m: &mut serde_json::Map<String, serde_json::Value>,
    key: String,
    v: serde_json::Value,
)
    ensures
        *final(m) == inserted_map(*old(m), key@, v),
        obj_entries(*final(m)) == obj_entries(*old(m)).insert(key@, v),
{
    m.insert(key, v);
}

/// Relies on serde_json::Map::remove: takes the entry under `key` out,
/// returning its value, and leaves every other entry in place.
#[verifier::external_body]
pub fn map_remove(m: &mut serde_json::Map<String, serde_json::Value>, key: &str) -> (r: Option<
    serde_json::Value,
>)
    ensures
        obj_entries(*final(m)) == obj_entries(*old(m)).remove(key@),
        r == if obj_entries(*old(m)).dom().contains(key@) {
            Some(obj_entries(*old(m))[key@])
        } else {
            None::<serde_json::Value>
        },
{
    m.remove(key)
}

} // verus!
