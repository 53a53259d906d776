//! JSON objects of `serde_json`, seen as maps from keys to members.

use vstd::prelude::*;

verus! {

/// A JSON value of `serde_json`; opaque here.
#[verifier::external_type_specification]
#[verifier::external_body]
pub struct ExJsonValue(serde_json::Value);

/// A JSON object of `serde_json`; opaque here.
#[verifier::external_type_specification]
#[verifier::external_body]
#[verifier::reject_recursive_types(K)]
#[verifier::reject_recursive_types(V)]
pub struct ExJsonMap<K, V>(serde_json::Map<K, V>);

/// A JSON value, as a member of an object or of an array.
pub enum JsonMember {
    Null,
    Bool(bool),
    Unsigned(nat),
    Negative(int),
    /// A number with a fraction or an exponent, by its spelling.
    Fraction(Seq<char>),
    Text(Seq<char>),
    Array(Seq<JsonMember>),
    Object(Map<Seq<char>, JsonMember>),
}

/// The members of a JSON object, by key.
pub uninterp spec fn json_members(
    object: serde_json::Map<String, serde_json::Value>,
) -> Map<Seq<char>, JsonMember>;

pub open spec fn no_members() -> Map<Seq<char>, JsonMember> {
    Map::empty()
}

/// The text under `key`, where there is a member and it is a string.
pub open spec fn member_text(members: Map<Seq<char>, JsonMember>, key: Seq<char>) -> Option<
    Seq<char>,
> {
    if members.dom().contains(key) {
        match members[key] {
            JsonMember::Text(text) => Some(text),
            _ => None,
        }
    } else {
        None
    }
}

/// `serde_json::Map::new`: an object without members.
#[verifier::external_body]
pub(crate) fn json_object() -> (r: serde_json::Map<String, serde_json::Value>)
    ensures
        json_members(r) == no_members(),
{
    serde_json::Map::new()
}

/// `serde_json::Map::get`, then `serde_json::Value::as_str`: the member's text,
/// where the key has a member and that member is a string.
#[verifier::external_body]
pub(crate) fn json_text(
    object: &serde_json::Map<String, serde_json::Value>,
    key: &str,
) -> (r: Option<String>)
    ensures
        (r is Some) == (member_text(json_members(*object), key@) is Some),
        r matches Some(text) ==> member_text(json_members(*object), key@) == Some(text@),
{
    object.get(key).and_then(|value| value.as_str()).map(str::to_owned)
}

/// `serde_json::Map::insert` with a string: the member under `key` is that
/// string afterwards, and the others are as they were.
#[verifier::external_body]
pub(crate) fn insert_text(
    object: &mut serde_json::Map<String, serde_json::Value>,
    key: &str,
    text: &str,
)
    ensures
        json_members(*final(object)) == json_members(*old(object)).insert(
            key@,
            JsonMember::Text(text@),
        ),
{
    object.insert(key.to_owned(), serde_json::Value::String(text.to_owned()));
}

/// `serde_json::Map::insert` with a number: the member under `key` is that
/// number afterwards, and the others are as they were.
#[verifier::external_body]
pub(crate) fn insert_unsigned(
    object: &mut serde_json::Map<String, serde_json::Value>,
    key: &str,
    number: u64,
)
    ensures
        json_members(*final(object)) == json_members(*old(object)).insert(
            key@,
            JsonMember::Unsigned(number as nat),
        ),
{
    object.insert(key.to_owned(), serde_json::Value::Number(number.into()));
}

/// `serde_json::Map::insert` with `null`: the member under `key` is `null`
/// afterwards, and the others are as they were.
#[verifier::external_body]
pub(crate) fn insert_null(object: &mut serde_json::Map<String, serde_json::Value>, key: &str)
    ensures
        json_members(*final(object)) == json_members(*old(object)).insert(key@, JsonMember::Null),
{
    object.insert(key.to_owned(), serde_json::Value::Null);
}

/// The members of a JSON value, where it is an object.
pub uninterp spec fn json_value_members(value: serde_json::Value) -> Option<
    Map<Seq<char>, JsonMember>,
>;

/// `serde_json::Value::as_object`, and a copy of what it gives: the object, where
/// the value is one.
#[verifier::external_body]
pub(crate) fn as_object(value: &serde_json::Value) -> (r: Option<
    serde_json::Map<String, serde_json::Value>,
>)
    ensures
        r is Some == json_value_members(*value) is Some,
        r matches Some(object) ==> json_value_members(*value) == Some(json_members(object)),
{
    value.as_object().cloned()
}

/// `serde_json::Value::Object` around a copy of the object: a value that is the
/// object.
#[verifier::external_body]
pub(crate) fn object_value(object: &serde_json::Map<String, serde_json::Value>) -> (r:
    serde_json::Value)
    ensures
        json_value_members(r) == Some(json_members(*object)),
{
    serde_json::Value::Object(object.clone())
}

} // verus!
