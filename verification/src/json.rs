//! The boundary to `serde_json`.
//!
//! JSON text is parsed and rendered by `serde_json`; a parsed document is an
//! opaque `serde_json::Value` that the rest of the crate reads through the
//! functions below. Nothing in this file is proved: each function makes one
//! call into `serde_json` and carries a contract taken from that crate's
//! documentation and source. The contracts are phrased over the names declared
//! first, which stand for what a `Value` holds.

use vstd::prelude::*;

verus! {

/// `serde_json::Value`, any JSON document. Opaque to the verifier.
#[verifier::external_type_specification]
#[verifier::external_body]
pub struct ExValue(serde_json::Value);

/// `serde_json::Error`, the reason a text was rejected. Opaque to the verifier.
#[verifier::external_type_specification]
#[verifier::external_body]
pub struct ExError(serde_json::Error);

/// `serde_json::Map`, the members of a JSON object under construction.
#[verifier::external_type_specification]
#[verifier::external_body]
#[verifier::reject_recursive_types(K)]
#[verifier::reject_recursive_types(V)]
pub struct ExMap<K, V>(serde_json::Map<K, V>);

/// The document that `serde_json::from_str` reads from a text, if it accepts
/// the text.
pub uninterp spec fn json_parse(text: Seq<char>) -> Option<serde_json::Value>;

/// The text that `serde_json::to_string` writes for a document, if it writes
/// one.
pub uninterp spec fn json_render(value: serde_json::Value) -> Option<Seq<char>>;

/// The members of a document: for a JSON object its members by key, for any
/// other document the empty map.
pub uninterp spec fn json_members(value: serde_json::Value) -> Map<Seq<char>, serde_json::Value>;

/// What `Value::as_u64` returns: the number a document holds, if it is an
/// integer that fits 64 unsigned bits.
pub uninterp spec fn json_u64(value: serde_json::Value) -> Option<u64>;

/// What `Value::as_str` returns: the string a document holds, if it is one.
pub uninterp spec fn json_str(value: serde_json::Value) -> Option<Seq<char>>;

/// What `Value::as_bool` returns: the boolean a document holds, if it is one.
pub uninterp spec fn json_bool(value: serde_json::Value) -> Option<bool>;

/// What `Value::is_null` returns: whether a document is `null`.
pub uninterp spec fn json_null(value: serde_json::Value) -> bool;

/// The members gathered in a `serde_json::Map`, by key.
pub uninterp spec fn map_members(map: serde_json::Map<String, serde_json::Value>) -> Map<
    Seq<char>,
    serde_json::Value,
>;

/// The members of a document that is no object, or of an object without any.
pub open spec fn no_members() -> Map<Seq<char>, serde_json::Value> {
    Map::empty()
}

/// A document that is neither an object nor a number, string or boolean.
pub open spec fn is_scalar_free(value: serde_json::Value) -> bool {
    &&& json_members(value) == no_members()
    &&& json_u64(value) is None
    &&& json_str(value) is None
    &&& json_bool(value) is None
}

/// Wraps `serde_json::from_str::<Value>`. The result depends on the text
/// alone; the contract only gives it its name.
#[verifier::external_body]
pub(crate) fn parse_value(text: &str) -> (r: Result<serde_json::Value, serde_json::Error>)
    ensures
        match r {
            Ok(value) => json_parse(text@) == Some(value),
            Err(_) => json_parse(text@) is None,
        },
{
    serde_json::from_str::<serde_json::Value>(text)
}

/// Wraps `serde_json::to_string` on a `Value`. The result depends on the
/// document alone; the contract only gives it its name.
#[verifier::external_body]
pub(crate) fn render_value(value: &serde_json::Value) -> (r: Result<String, serde_json::Error>)
    ensures
        match r {
            Ok(text) => json_render(*value) == Some(text@),
            Err(_) => json_render(*value) is None,
        },
{
    serde_json::to_string(value)
}

/// Wraps `Value::get` with a string index: the member under `key` when the
/// document is an object that has one, `None` otherwise.
#[verifier::external_body]
pub(crate) fn member<'a>(value: &'a serde_json::Value, key: &str) -> (r: Option<
    &'a serde_json::Value,
>)
    ensures
        match r {
            Some(found) => json_members(*value).contains_key(key@) && json_members(*value)[key@]
                == *found,
            None => !json_members(*value).contains_key(key@),
        },
{
    value.get(key)
}

/// Wraps `Value::as_u64`.
#[verifier::external_body]
pub(crate) fn as_u64(value: &serde_json::Value) -> (r: Option<u64>)
    ensures
        r == json_u64(*value),
{
    value.as_u64()
}

/// Wraps `Value::as_str`.
#[verifier::external_body]
pub(crate) fn as_str<'a>(value: &'a serde_json::Value) -> (r: Option<&'a str>)
    ensures
        match r {
            Some(text) => json_str(*value) == Some(text@),
            None => json_str(*value) is None,
        },
{
    value.as_str()
}

/// Wraps `Value::as_bool`.
#[verifier::external_body]
pub(crate) fn as_bool(value: &serde_json::Value) -> (r: Option<bool>)
    ensures
        r == json_bool(*value),
{
    value.as_bool()
}

/// Wraps `Value::is_null`.
#[verifier::external_body]
pub(crate) fn is_null(value: &serde_json::Value) -> (r: bool)
    ensures
        r == json_null(*value),
{
    value.is_null()
}

/// Wraps `Value::clone`: the copy is the same document.
#[verifier::external_body]
pub(crate) fn clone_value(value: &serde_json::Value) -> (copy: serde_json::Value)
    ensures
        copy == *value,
{
    value.clone()
}

/// Builds `Value::Null`: a document that is `null` and nothing else.
#[verifier::external_body]
pub(crate) fn null_value() -> (value: serde_json::Value)
    ensures
        json_null(value),
        is_scalar_free(value),
{
    serde_json::Value::Null
}

/// Wraps `Value::from(u64)`: a number that `as_u64` reads back unchanged.
#[verifier::external_body]
pub(crate) fn number_value(n: u64) -> (value: serde_json::Value)
    ensures
        json_u64(value) == Some(n),
        !json_null(value),
        json_str(value) is None,
        json_bool(value) is None,
        json_members(value) == no_members(),
{
    serde_json::Value::from(n)
}

/// Wraps `Value::from(&str)`: a string that `as_str` reads back unchanged.
#[verifier::external_body]
pub(crate) fn string_value(text: &str) -> (value: serde_json::Value)
    ensures
        json_str(value) == Some(text@),
        !json_null(value),
        json_u64(value) is None,
        json_bool(value) is None,
        json_members(value) == no_members(),
{
    serde_json::Value::from(text)
}

/// Wraps `Map::new`: no members.
#[verifier::external_body]
pub(crate) fn new_members() -> (map: serde_json::Map<String, serde_json::Value>)
    ensures
        map_members(map) == no_members(),
{
    serde_json::Map::new()
}

/// Wraps `Map::insert`: the member under `key` is now `value`, whether or not
/// there was one before; the other members stay.
#[verifier::external_body]
pub(crate) fn insert_member(
    map: &mut serde_json::Map<String, serde_json::Value>,
    key: String,
    value: serde_json::Value,
)
    ensures
        map_members(*final(map)) == map_members(*old(map)).insert(key@, value),
{
    map.insert(key, value);
}

/// Builds `Value::Object` from gathered members: an object that holds exactly
/// those members and is no number, string, boolean or `null`.
#[verifier::external_body]
pub(crate) fn object_value(map: serde_json::Map<String, serde_json::Value>) -> (value:
    serde_json::Value)
    ensures
        json_members(value) == map_members(map),
        !json_null(value),
        json_u64(value) is None,
        json_str(value) is None,
        json_bool(value) is None,
{
    serde_json::Value::Object(map)
}

} // verus!
