//! JSON values of `serde_json`, carried through the library as opaque data,
//! and the few questions the library asks about them.
use vstd::prelude::*;

verus! {

#[verifier::external_type_specification]
#[verifier::external_body]
pub struct ExJsonValue(serde_json::Value);

#[verifier::external_type_specification]
#[verifier::external_body]
#[verifier::reject_recursive_types(K)]
#[verifier::reject_recursive_types(V)]
pub struct ExJsonMap<K, V>(serde_json::Map<K, V>);

/// A JSON object: member names to values.
pub type JsonObject = serde_json::Map<String, serde_json::Value>;

/// The members of a JSON object, by name.
pub uninterp spec fn object_members(m: serde_json::Map<String, serde_json::Value>) -> Map<
    Seq<char>,
    serde_json::Value,
>;

/// The object a JSON value holds, if it is an object.
pub uninterp spec fn object_in(v: serde_json::Value) -> Option<
    serde_json::Map<String, serde_json::Value>,
>;

/// Whether `text` is a JSON document whose top-level value is an object.
pub uninterp spec fn is_object_text(text: Seq<char>) -> bool;

/// Relies on serde_json::Value::as_object: the map of an `Object` value,
/// `None` for every other kind of value.
pub assume_specification[ serde_json::Value::as_object ](v: &serde_json::Value) -> (r: Option<
    &serde_json::Map<String, serde_json::Value>,
>)
    ensures
        match r {
            Some(m) => object_in(*v) == Some(*m),
            None => object_in(*v) is None,
        },
;

/// Relies on serde_json::Map::is_empty: true exactly when the object has no
/// member.
pub assume_specification[ serde_json::Map::<String, serde_json::Value>::is_empty ](
    m: &serde_json::Map<String, serde_json::Value>,
) -> (r: bool)
    ensures
        r == (object_members(*m) == Map::<Seq<char>, serde_json::Value>::empty()),
;

/// Relies on serde_json::Map::get: the member stored under `key`, if any.
#[verifier::external_body]
pub(crate) fn member<'a>(m: &'a JsonObject, key: &str) -> (r: Option<&'a serde_json::Value>)
    ensures
        match r {
            Some(v) => object_members(*m).contains_key(key@) && *v == object_members(*m)[key@],
            None => !object_members(*m).contains_key(key@),
        },
{
    m.get(key)
}

/// Relies on serde_json::from_str: parses `text` as one JSON value and keeps
/// it when it is an object.
#[verifier::external_body]
pub(crate) fn parse_object(text: &str) -> (r: Option<JsonObject>)
    ensures
        r is Some <==> is_object_text(text@),
{
    match serde_json::from_str::<serde_json::Value>(text) {
        Ok(serde_json::Value::Object(m)) => Some(m),
        _ => None,
    }
}

} // verus!
