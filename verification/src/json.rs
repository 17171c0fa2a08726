//! JSON values: the `serde_json` type, what it holds, and the calls made on it.

use serde_json::Value;
use vstd::prelude::*;

verus! {

#[verifier::external_type_specification]
#[verifier::external_body]
pub struct ExValue(serde_json::Value);

/// What a JSON value holds.
pub enum Json {
    Null,
    Bool(bool),
    Integer(int),
    /// A number that is not held as an integer, by the bits of its double.
    Float(u64),
    Text(Seq<char>),
    Array(Seq<Json>),
    Object(Map<Seq<char>, Json>),
}

/// What a `serde_json::Value` holds.
pub uninterp spec fn json_of(value: serde_json::Value) -> Json;

/// What `serde_json::from_slice` makes of a text; `None` if it refuses it.
pub uninterp spec fn json_read(text: Seq<u8>) -> Option<Json>;

/// What `serde_json::to_vec` makes of a value; `None` if it fails.
pub uninterp spec fn json_written(value: Json) -> Option<Seq<u8>>;

/// How `serde_json::Value` displays a value.
pub uninterp spec fn json_shown(value: Json) -> Seq<char>;

/// The member `key` of an object; nothing is a member of any other value.
pub open spec fn member_of(value: Json, key: Seq<char>) -> Option<Json> {
    match value {
        Json::Object(members) => if members.contains_key(key) {
            Some(members[key])
        } else {
            None
        },
        _ => None,
    }
}

/// The text a value is, if it is one.
pub open spec fn text_of(value: Json) -> Option<Seq<char>> {
    match value {
        Json::Text(text) => Some(text),
        _ => None,
    }
}

/// The truth value a value is, if it is one.
pub open spec fn bool_of(value: Json) -> Option<bool> {
    match value {
        Json::Bool(b) => Some(b),
        _ => None,
    }
}

/// The 64-bit integer a value is, if it is one.
pub open spec fn integer_of(value: Json) -> Option<i64> {
    match value {
        Json::Integer(n) => if i64::MIN <= n <= i64::MAX {
            Some(n as i64)
        } else {
            None
        },
        _ => None,
    }
}

/// How deep arrays and objects may nest for `serde_json` to read them.
pub const MAX_NESTING: u8 = 127;

/// Whether a value is made of texts, truth values, nulls and integers of 64
/// bits, in arrays and objects that nest no deeper than this.
pub open spec fn is_plain(value: Json, nesting: nat) -> bool
    decreases nesting,
{
    match value {
        Json::Null => true,
        Json::Bool(_) => true,
        Json::Integer(n) => i64::MIN <= n <= u64::MAX,
        Json::Float(_) => false,
        Json::Text(_) => true,
        Json::Array(items) => nesting > 0 && forall|i: int|
            0 <= i < items.len() ==> is_plain(#[trigger] items[i], (nesting - 1) as nat),
        Json::Object(members) => nesting > 0 && members.dom().finite() && forall|key: Seq<char>|
            members.contains_key(key) ==> is_plain(#[trigger] members[key], (nesting - 1) as nat),
    }
}

/// Calls `serde_json::from_slice` for a `Value`: the result depends on the
/// text alone and is named `json_read`.
#[verifier::external_body]
pub(crate) fn read_json(text: &[u8]) -> (r: Option<Value>)
    ensures
        match r {
            Some(value) => json_read(text@) == Some(json_of(value)),
            None => json_read(text@) is None,
        },
{
    serde_json::from_slice(text).ok()
}

/// Calls `serde_json::to_vec`: the result depends on what the value holds
/// alone and is named `json_written`. A `Value` can always be written: its keys
/// are texts, and nothing in it refuses to be serialized. What was written is
/// read back by `serde_json::from_slice` as it was, if it holds no number other
/// than an integer (those may come back changed) and does not nest deeper than
/// the reader follows.
#[verifier::external_body]
pub(crate) fn write_json(value: &Value) -> (r: Option<Vec<u8>>)
    ensures
        r is Some,
        match r {
            Some(bytes) => json_written(json_of(*value)) == Some(bytes@),
            None => json_written(json_of(*value)) is None,
        },
        is_plain(json_of(*value), MAX_NESTING as nat) ==> json_read(r->0@) == Some(json_of(*value)),
{
    serde_json::to_vec(value).ok()
}

/// Displays a value by `Value`'s own `Display`: the text depends on what the
/// value holds alone and is named `json_shown`.
#[verifier::external_body]
pub(crate) fn show_json(value: &Value) -> (r: String)
    ensures
        r@ == json_shown(json_of(*value)),
{
    value.to_string()
}

/// Calls `Value::get` with a string key: the member of that name, if the value
/// is an object that has it.
#[verifier::external_body]
pub(crate) fn member<'a>(value: &'a Value, key: &str) -> (r: Option<&'a Value>)
    ensures
        match r {
            Some(found) => member_of(json_of(*value), key@) == Some(json_of(*found)),
            None => member_of(json_of(*value), key@) is None,
        },
{
    value.get(key)
}

/// Calls `Value::as_str`: the text, if the value is one.
#[verifier::external_body]
pub(crate) fn as_text(value: &Value) -> (r: Option<&str>)
    ensures
        match r {
            Some(text) => text_of(json_of(*value)) == Some(text@),
            None => text_of(json_of(*value)) is None,
        },
{
    value.as_str()
}

/// Calls `Value::as_bool`: the truth value, if the value is one.
#[verifier::external_body]
pub(crate) fn as_bool(value: &Value) -> (r: Option<bool>)
    ensures
        r == bool_of(json_of(*value)),
{
    value.as_bool()
}

/// Calls `Value::as_i64`: the integer, if the value is one that fits.
#[verifier::external_body]
pub(crate) fn as_integer(value: &Value) -> (r: Option<i64>)
    ensures
        r == integer_of(json_of(*value)),
{
    value.as_i64()
}

/// Makes an object without members, from an empty `serde_json::Map`.
#[verifier::external_body]
pub(crate) fn empty_object() -> (r: Value)
    ensures
        json_of(r) == Json::Object(Map::empty()),
{
    Value::Object(serde_json::Map::new())
}

/// Makes a text, by `Value`'s `From<&str>`.
#[verifier::external_body]
pub(crate) fn text_value(text: &str) -> (r: Value)
    ensures
        json_of(r) == Json::Text(text@),
{
    Value::from(text)
}

/// Makes a truth value, by `Value`'s `From<bool>`.
#[verifier::external_body]
pub(crate) fn bool_value(b: bool) -> (r: Value)
    ensures
        json_of(r) == Json::Bool(b),
{
    Value::from(b)
}

/// Makes an integer, by `Value`'s `From<i64>`.
#[verifier::external_body]
pub(crate) fn integer_value(n: i64) -> (r: Value)
    ensures
        json_of(r) == Json::Integer(n as int),
{
    Value::from(n)
}

/// Makes an array, by `Value`'s `From<Vec<Value>>`.
#[verifier::external_body]
pub(crate) fn array_value(items: Vec<Value>) -> (r: Value)
    ensures
        json_of(r) == Json::Array(items@.map_values(|v: Value| json_of(v))),
{
    Value::from(items)
}

/// Assigns to a member through `Value`'s `IndexMut<&str>`, which adds the
/// member if the object does not have it. That panics on a value that is
/// neither an object nor null.
#[verifier::external_body]
pub(crate) fn set_member(object: &mut Value, key: &str, item: Value)
    requires
        json_of(*old(object)) is Object,
    ensures
        json_of(*final(object)) == Json::Object(
            json_of(*old(object))->Object_0.insert(key@, json_of(item)),
        ),
{
    object[key] = item;
}

} // verus!
