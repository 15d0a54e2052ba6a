//! JSON documents, read with `serde_json`.
//!
//! The relay does not parse JSON itself. It hands the bytes to `serde_json`
//! and looks at the value that comes back through four of its accessors.
//! What those calls return is stated here and believed, not proved; the
//! rest of the crate is proved against these statements.

use vstd::prelude::*;

verus! {

/// Declares `serde_json::Value`, so that verified code can hold one. What
/// is in it is known only through `json_of`.
#[verifier::external_type_specification]
#[verifier::external_body]
pub struct ExValue(serde_json::Value);

/// Declares `serde_json::Error`, so that `parse` can return one. Nothing
/// is read in it.
#[verifier::external_type_specification]
#[verifier::external_body]
pub struct ExError(serde_json::Error);

/// A JSON value, as far as the relay reads it: an object with its members
/// by key, a whole number in the signed 64-bit range, a string, or anything
/// else (null, a boolean, any other number, an array).
pub enum Json {
    Object(Map<Seq<char>, Json>),
    Integer(i64),
    Text(Seq<char>),
    Other,
}

impl Json {
    /// The member under `key`, where this is an object that has one.
    pub open spec fn member(self, key: Seq<char>) -> Option<Json> {
        match self {
            Json::Object(members) => if members.contains_key(key) {
                Some(members[key])
            } else {
                None
            },
            _ => None,
        }
    }

    /// The number, where this is a whole number in the signed 64-bit range.
    pub open spec fn integer(self) -> Option<i64> {
        match self {
            Json::Integer(n) => Some(n),
            _ => None,
        }
    }

    /// The characters, where this is a string.
    pub open spec fn text(self) -> Option<Seq<char>> {
        match self {
            Json::Text(t) => Some(t),
            _ => None,
        }
    }
}

/// What a `serde_json::Value` holds. The accessors below are stated over
/// it; nothing else is claimed of it.
pub uninterp spec fn json_of(value: serde_json::Value) -> Json;

/// The document that `serde_json::from_slice` reads from `body`, and `None`
/// where it reads none.
pub uninterp spec fn parsed(body: Seq<u8>) -> Option<Json>;

/// Calls `serde_json::from_slice` for a `serde_json::Value`. Believed: the
/// outcome depends on the bytes alone, so it is `parsed` of them, an error
/// standing for `None`.
#[verifier::external_body]
pub(crate) fn parse(body: &[u8]) -> (document: Result<serde_json::Value, serde_json::Error>)
    ensures
        document matches Ok(value) ==> parsed(body@) == Some(json_of(value)),
        document is Err ==> parsed(body@) is None,
{
    serde_json::from_slice::<serde_json::Value>(body)
}

/// Calls `serde_json::Value::is_object`. Believed: it tells whether the
/// value is an object.
#[verifier::external_body]
pub(crate) fn is_object(value: &serde_json::Value) -> (object: bool)
    ensures
        object == (json_of(*value) is Object),
{
    value.is_object()
}

/// Calls `serde_json::Value::get` with a string key. Believed: it returns
/// the member under that key where the value is an object that has one, and
/// `None` otherwise.
#[verifier::external_body]
pub(crate) fn get<'a>(value: &'a serde_json::Value, key: &str) -> (member: Option<
    &'a serde_json::Value,
>)
    ensures
        member matches Some(found) ==> json_of(*value).member(key@) == Some(json_of(*found)),
        member is None ==> json_of(*value).member(key@) is None,
{
    value.get(key)
}

/// Calls `serde_json::Value::as_i64`. Believed: it returns the number where
/// the value is a whole number in the signed 64-bit range, and `None`
/// otherwise.
#[verifier::external_body]
pub(crate) fn as_i64(value: &serde_json::Value) -> (number: Option<i64>)
    ensures
        number == json_of(*value).integer(),
{
    value.as_i64()
}

/// Calls `serde_json::Value::as_str`. Believed: it returns the characters
/// where the value is a string, and `None` otherwise.
#[verifier::external_body]
pub(crate) fn as_str<'a>(value: &'a serde_json::Value) -> (text: Option<&'a str>)
    ensures
        text matches Some(characters) ==> json_of(*value).text() == Some(characters@),
        text is None ==> json_of(*value).text() is None,
{
    value.as_str()
}

} // verus!
