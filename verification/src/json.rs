//! JSON documents as `serde_json` holds them, and what the relay reads in them.
//!
//! A document stays a `serde_json::Value`. Contracts speak of its model, a
//! [`JsonValue`], and the few `serde_json` operations that the relay needs are
//! given contracts over that model. Those contracts are taken on trust; all
//! that is built on them is verified.

use vstd::prelude::*;

verus! {

/// `serde_json::Value`, a parsed JSON document. Nothing inside it is visible
/// to the verifier; [`json_model`] names what it holds.
#[verifier::external_type_specification]
#[verifier::external_body]
pub struct ExValue(serde_json::Value);

/// `serde_json::Error`, the reason for which a text was not accepted as JSON.
#[verifier::external_type_specification]
#[verifier::external_body]
pub struct ExError(serde_json::Error);

/// The model of a JSON document.
///
/// A number carries no payload: the relay never reads one, so the model does
/// not tell two numbers apart.
pub enum JsonValue {
    /// The value `null`.
    Null,
    /// `true` or `false`.
    Bool(bool),
    /// A number.
    Number,
    /// A string, as its characters.
    Text(Seq<char>),
    /// An array, as its elements in their order.
    Array(Seq<JsonValue>),
    /// An object, as its members by their keys.
    Object(Map<Seq<char>, JsonValue>),
}

impl JsonValue {
    /// The member under `key` where this is an object that has one, and
    /// `Null` in every other case.
    pub open spec fn member(self, key: Seq<char>) -> JsonValue {
        match self {
            JsonValue::Object(members) if members.contains_key(key) => members[key],
            _ => JsonValue::Null,
        }
    }

    /// The element at `index` where this is an array that is long enough, and
    /// `Null` in every other case.
    pub open spec fn element(self, index: int) -> JsonValue {
        match self {
            JsonValue::Array(elements) if 0 <= index < elements.len() => elements[index],
            _ => JsonValue::Null,
        }
    }

    /// The characters of this value where it is a string.
    pub open spec fn text(self) -> Option<Seq<char>> {
        match self {
            JsonValue::Text(chars) => Some(chars),
            _ => None,
        }
    }
}

/// What a `serde_json::Value` holds.
pub uninterp spec fn json_model(value: serde_json::Value) -> JsonValue;

/// What `serde_json::from_slice` makes of a text: the model of the document
/// that it returns, or `None` where it rejects the text.
pub uninterp spec fn json_parse(bytes: Seq<u8>) -> Option<JsonValue>;

/// Calls `serde_json::from_slice` for a `serde_json::Value`.
///
/// Trusted: the outcome is a function of the bytes alone, named by
/// [`json_parse`]. An accepted text gives a document whose model is the named
/// one; a rejected text gives an error, and the name is `None`. Which texts
/// are accepted, and as what, is left to `serde_json`.
#[verifier::external_body]
pub(crate) fn parse_value(bytes: &[u8]) -> (parsed: Result<serde_json::Value, serde_json::Error>)
    ensures
        parsed matches Ok(value) ==> json_parse(bytes@) == Some(json_model(value)),
        parsed is Err ==> json_parse(bytes@) is None,
{
    serde_json::from_slice::<serde_json::Value>(bytes)
}

/// Calls the `Index<&str>` impl of `serde_json::Value`, which is `value[key]`.
///
/// Trusted: the result is the member under `key` where `value` is an object
/// that has one, and a null value in every other case. No `value` and no
/// `key` makes it panic.
#[verifier::external_body]
pub(crate) fn value_at_key<'a>(
    value: &'a serde_json::Value,
    key: &str,
) -> (found: &'a serde_json::Value)
    ensures
        json_model(*found) == json_model(*value).member(key@),
{
    &value[key]
}

/// Calls the `Index<usize>` impl of `serde_json::Value`, which is
/// `value[index]`.
///
/// Trusted: the result is the element at `index` where `value` is an array
/// with more than `index` elements, and a null value in every other case. No
/// `value` and no `index` makes it panic.
#[verifier::external_body]
pub(crate) fn value_at_index<'a>(
    value: &'a serde_json::Value,
    index: usize,
) -> (found: &'a serde_json::Value)
    ensures
        json_model(*found) == json_model(*value).element(index as int),
{
    &value[index]
}

/// Calls `serde_json::Value::as_str`.
///
/// Trusted: the result is the string that `value` holds where it is a JSON
/// string, and `None` for every other kind of value.
#[verifier::external_body]
pub(crate) fn value_as_str<'a>(value: &'a serde_json::Value) -> (text: Option<&'a str>)
    ensures
        text matches Some(found) ==> json_model(*value).text() == Some(found@),
        text is None ==> json_model(*value).text() is None,
{
    value.as_str()
}

} // verus!
