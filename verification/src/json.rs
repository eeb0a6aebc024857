//! The boundary to `serde_json`: a mathematical model of a JSON value and the
//! few calls through which the prober reads one.
//!
//! Nothing in this module is proved. Every contract here records what the
//! `serde_json` source shows of the function that the body calls; the rest of
//! the library is proved against these contracts.

use vstd::prelude::*;

verus! {

#[verifier::external_type_specification]
#[verifier::external_body]
pub struct ExJsonValue(serde_json::Value);

#[verifier::external_type_specification]
#[verifier::external_body]
pub struct ExJsonError(serde_json::Error);

/// What a JSON value holds, as far as this library reads it.
pub enum Json {
    Null,
    Bool(bool),
    /// A number. The payload is its value where `serde_json` holds it as an
    /// unsigned integer; a negative or fractional number carries `None`.
    Number(Option<u64>),
    Text(Seq<char>),
    Array(Seq<Json>),
    Object(Map<Seq<char>, Json>),
}

impl Json {
    /// The member stored under `key` if this is an object that has one, else `Null`.
    pub open spec fn member(self, key: Seq<char>) -> Json {
        match self {
            Json::Object(members) => if members.dom().contains(key) {
                members[key]
            } else {
                Json::Null
            },
            _ => Json::Null,
        }
    }

    /// The characters of a JSON string; `None` for any other value.
    pub open spec fn text(self) -> Option<Seq<char>> {
        match self {
            Json::Text(chars) => Some(chars),
            _ => None,
        }
    }

    /// The value of an unsigned integer; `None` for any other value.
    pub open spec fn unsigned(self) -> Option<u64> {
        match self {
            Json::Number(n) => n,
            _ => None,
        }
    }

    /// The items of a JSON array; `None` for any other value.
    pub open spec fn items(self) -> Option<Seq<Json>> {
        match self {
            Json::Array(items) => Some(items),
            _ => None,
        }
    }
}

/// What a `serde_json::Value` holds.
pub uninterp spec fn json_model(value: serde_json::Value) -> Json;

/// What `serde_json::from_str` reads out of a text: the document, or `None`
/// where the text is rejected.
pub uninterp spec fn parsed_json(text: Seq<char>) -> Option<Json>;

/// Calls `serde_json::from_str` for a `Value`. The outcome depends on the text
/// alone: an `Ok` value holds the document that the text denotes, an `Err`
/// means that the text is rejected.
#[verifier::external_body]
pub(crate) fn parse_json(text: &str) -> (parsed: Result<serde_json::Value, serde_json::Error>)
    ensures
        match parsed {
            Ok(value) => parsed_json(text@) == Some(json_model(value)),
            Err(_) => parsed_json(text@) is None,
        },
{
    serde_json::from_str(text)
}

/// Indexes a `Value` by a string key, as `value[key]` does: the member of an
/// object that has the key, and a null value in every other case.
#[verifier::external_body]
pub(crate) fn json_member<'a>(value: &'a serde_json::Value, key: &str) -> (member:
    &'a serde_json::Value)
    ensures
        json_model(*member) == json_model(*value).member(key@),
{
    &value[key]
}

/// Calls `Value::as_array`: the vector of an array, `None` for any other value.
#[verifier::external_body]
pub(crate) fn json_items<'a>(value: &'a serde_json::Value) -> (items: Option<
    &'a Vec<serde_json::Value>,
>)
    ensures
        match items {
            Some(list) => json_model(*value).items() == Some(
                list@.map_values(|item: serde_json::Value| json_model(item)),
            ),
            None => json_model(*value).items() is None,
        },
{
    value.as_array()
}

/// Calls `Value::as_str`: the characters of a string, `None` for any other value.
#[verifier::external_body]
pub(crate) fn json_text<'a>(value: &'a serde_json::Value) -> (text: Option<&'a str>)
    ensures
        match text {
            Some(chars) => json_model(*value).text() == Some(chars@),
            None => json_model(*value).text() is None,
        },
{
    value.as_str()
}

/// Calls `Value::as_u64`: the value of a number held as an unsigned integer,
/// `None` for any other value.
#[verifier::external_body]
pub(crate) fn json_unsigned(value: &serde_json::Value) -> (number: Option<u64>)
    ensures
        number == json_model(*value).unsigned(),
{
    value.as_u64()
}

} // verus!
