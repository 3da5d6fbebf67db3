//! JSON values and objects of `serde_json`, held as they are. Contracts
//! speak of a value by its compact JSON text and of an object by its
//! members, the text of the value under each name.

use crate::text::decimal;
use vstd::prelude::*;

verus! {

#[verifier::external_type_specification]
#[verifier::external_body]
pub struct ExJsonValue(serde_json::Value);

#[verifier::external_type_specification]
#[verifier::external_body]
#[verifier::reject_recursive_types(K)]
#[verifier::reject_recursive_types(V)]
pub struct ExJsonMap<K, V>(serde_json::Map<K, V>);

/// A JSON object of `serde_json`.
pub type JsonObject = serde_json::Map<String, serde_json::Value>;

/// A JSON value of `serde_json`.
pub type JsonValue = serde_json::Value;

/// The members of an object as plain values: names and texts.
pub type Members = Map<Seq<char>, Seq<char>>;

/// The compact JSON text of a value, as its `Display` writes it.
pub uninterp spec fn json_text(value: JsonValue) -> Seq<char>;

/// The members of a JSON object: the text of the value under each name.
pub uninterp spec fn json_members(object: JsonObject) -> Members;

/// The JSON text of a string: the text in quotes, with its escapes.
pub uninterp spec fn text_json(text: Seq<char>) -> Seq<char>;

/// The JSON text of an object as a value.
pub uninterp spec fn object_json(object: JsonObject) -> Seq<char>;

/// No members at all.
pub open spec fn no_members() -> Members {
    Map::empty()
}

/// Calls `serde_json::Map::new`: an object without members.
#[verifier::external_body]
pub(crate) fn new_object() -> (created: JsonObject)
    ensures
        json_members(created) == no_members(),
{
    serde_json::Map::new()
}

/// Calls `serde_json::Map::insert`: the value stands under the name, in
/// place of what stood there, and the other members stay.
#[verifier::external_body]
pub(crate) fn set_member(object: &mut JsonObject, name: &str, value: JsonValue)
    ensures
        json_members(*final(object)) == json_members(*old(object)).insert(name@, json_text(value)),
{
    object.insert(name.to_string(), value);
}

/// Calls `serde_json::Map::contains_key`: whether a value stands under
/// the name.
#[verifier::external_body]
pub(crate) fn has_member(object: &JsonObject, name: &str) -> (found: bool)
    ensures
        found == json_members(*object).contains_key(name@),
{
    object.contains_key(name)
}

/// Calls `serde_json::Map::is_empty`: whether the object has no member.
#[verifier::external_body]
pub(crate) fn has_no_members(object: &JsonObject) -> (empty: bool)
    ensures
        empty == (json_members(*object) == no_members()),
{
    object.is_empty()
}

/// Hands out the members of an object through the iterator of
/// `serde_json::Map::into_iter`: every member once, each name with its
/// value, in no order that is promised here.
#[verifier::external_body]
pub(crate) fn take_members(object: JsonObject) -> (members: Vec<(String, JsonValue)>)
    ensures
        forall|i: int|
            0 <= i < members@.len() ==> (forall|j: int|
                i < j < members@.len() ==> (#[trigger] members@[i]).0@ != (
                #[trigger] members@[j]).0@),
        forall|i: int|
            0 <= i < members@.len() ==> json_members(object).contains_key(
                (#[trigger] members@[i]).0@,
            ) && json_members(object)[members@[i].0@] == json_text(members@[i].1),
        forall|k: Seq<char>|
            json_members(object).contains_key(k) ==> (exists|i: int|
                0 <= i < members@.len() && (#[trigger] members@[i]).0@ == k),
{
    object.into_iter().collect()
}

/// Calls `serde_json::Value::from` on a text: the string value of that
/// text.
#[verifier::external_body]
pub(crate) fn text_value(text: &str) -> (value: JsonValue)
    ensures
        json_text(value) == text_json(text@),
{
    serde_json::Value::from(text)
}

/// Calls `serde_json::Value::from` on a number: the number value, which
/// is written in decimal.
#[verifier::external_body]
pub(crate) fn unsigned_value(n: u64) -> (value: JsonValue)
    ensures
        json_text(value) == decimal(n as int),
{
    serde_json::Value::from(n)
}

/// The value `serde_json::Value::Null`, which is written `null`.
#[verifier::external_body]
pub(crate) fn null_value() -> (value: JsonValue)
    ensures
        json_text(value) == "null"@,
{
    serde_json::Value::Null
}

/// Wraps an object as `serde_json::Value::Object`: the value whose text is
/// that of the object.
#[verifier::external_body]
pub(crate) fn object_value(object: JsonObject) -> (value: JsonValue)
    ensures
        json_text(value) == object_json(object),
{
    serde_json::Value::Object(object)
}

} // verus!
