//! JSON documents, as `serde_json` reads them.
//!
//! Parsing and the reading of a parsed value are `serde_json`'s. What is
//! stated of them here is believed, not proved: each such item says so.

use vstd::prelude::*;

verus! {

/// `serde_json::Value`, a parsed JSON value. Nothing inside it is visible to
/// the verifier; [`json_content`] names what it holds.
#[verifier::external_type_specification]
#[verifier::external_body]
pub struct ExJsonValue(serde_json::Value);

/// `serde_json::Error`, the reason why a text was not read as JSON.
#[verifier::external_type_specification]
#[verifier::external_body]
pub struct ExJsonError(serde_json::Error);

/// A JSON number in one of its three forms: `serde_json` keeps a number that
/// is written without fraction and exponent as an integer where it fits one,
/// and any other as a double.
pub enum JsonNumber {
    /// An integer from 0 to `u64::MAX`.
    Unsigned(u64),
    /// An integer below 0.
    Negative(i64),
    /// A finite double, by its bit pattern.
    Double(u64),
}

/// A JSON value.
pub enum Json {
    /// `null`.
    Null,
    /// `true` or `false`.
    Bool(bool),
    /// A number.
    Number(JsonNumber),
    /// A string, by its characters.
    Text(Seq<char>),
    /// An array, by its elements in order.
    Array(Seq<Json>),
    /// An object, by its members under their keys.
    Object(Map<Seq<char>, Json>),
}

/// What a parsed value holds.
pub uninterp spec fn json_content(value: serde_json::Value) -> Json;

/// What `serde_json::from_str` reads from a text: the document, or `None`
/// where it reports an error.
pub uninterp spec fn json_document(text: Seq<char>) -> Option<Json>;

/// The bit pattern of the double that Rust converts an integer to: the
/// double nearest to it and, of two that are equally near, the one whose
/// last significand bit is 0.
pub uninterp spec fn nearest_double(n: int) -> u64;

impl Json {
    /// The member of an object under `key`; `None` for a value that is no
    /// object, and for an object without that key.
    pub open spec fn member(self, key: Seq<char>) -> Option<Json> {
        match self {
            Json::Object(members) if members.contains_key(key) => Some(members[key]),
            _ => None,
        }
    }

    /// The value as an unsigned integer: a number kept as one, and nothing
    /// else.
    pub open spec fn as_unsigned(self) -> Option<u64> {
        match self {
            Json::Number(JsonNumber::Unsigned(n)) => Some(n),
            _ => None,
        }
    }

    /// The value as a double, by its bit pattern: any number, an integer
    /// converted to the double nearest to it; nothing else.
    pub open spec fn as_double(self) -> Option<u64> {
        match self {
            Json::Number(JsonNumber::Unsigned(n)) => Some(nearest_double(n as int)),
            Json::Number(JsonNumber::Negative(n)) => Some(nearest_double(n as int)),
            Json::Number(JsonNumber::Double(bits)) => Some(bits),
            _ => None,
        }
    }
}

/// Calls `serde_json::from_str` for a `serde_json::Value`.
///
/// Believed: the call returns `Ok` exactly where [`json_document`] is `Some`,
/// and the value then holds that document.
#[verifier::external_body]
pub(crate) fn read_document(text: &str) -> (parsed: Result<serde_json::Value, serde_json::Error>)
    ensures
        match parsed {
            Ok(value) => json_document(text@) == Some(json_content(value)),
            Err(_) => json_document(text@) is None,
        },
{
    serde_json::from_str::<serde_json::Value>(text)
}

/// Calls `serde_json::Value::get` with a string index.
///
/// Believed: the call returns the member of an object under `key`, and `None`
/// where the value is no object or has no such member.
#[verifier::external_body]
pub(crate) fn read_member<'a>(
    value: &'a serde_json::Value,
    key: &str,
) -> (found: Option<&'a serde_json::Value>)
    ensures
        match found {
            Some(inner) => json_content(*value).member(key@) == Some(json_content(*inner)),
            None => json_content(*value).member(key@) is None,
        },
{
    value.get(key)
}

/// Calls `serde_json::Value::as_object` and, on the map that it gives,
/// `serde_json::Map::len`.
///
/// Believed: for an object the call returns the number of its keys, which is
/// finite, and `None` for any other value.
#[verifier::external_body]
pub(crate) fn read_member_count(value: &serde_json::Value) -> (count: Option<usize>)
    ensures
        match json_content(*value) {
            Json::Object(members) => members.dom().finite() && count is Some && count->Some_0
                == members.dom().len(),
            _ => count is None,
        },
{
    value.as_object().map(|members| members.len())
}

/// Calls `serde_json::Value::as_u64`.
///
/// Believed: the call returns the integer of a number that is kept as an
/// unsigned integer, and `None` for any other value.
#[verifier::external_body]
pub(crate) fn read_unsigned(value: &serde_json::Value) -> (n: Option<u64>)
    ensures
        n == json_content(*value).as_unsigned(),
{
    value.as_u64()
}

/// Calls `serde_json::Value::as_f64` and takes the bit pattern of the double.
///
/// Believed: for a number the call returns the double that it is kept as, or
/// the double that the integer it is kept as converts to, and `None` for any
/// other value.
#[verifier::external_body]
pub(crate) fn read_double(value: &serde_json::Value) -> (bits: Option<u64>)
    ensures
        bits == match json_content(*value) {
            Json::Number(JsonNumber::Unsigned(n)) => Some(nearest_double(n as int)),
            Json::Number(JsonNumber::Negative(n)) => Some(nearest_double(n as int)),
            Json::Number(JsonNumber::Double(kept)) => Some(kept),
            _ => None,
        },
{
    value.as_f64().map(|number| number.to_bits())
}

} // verus!
