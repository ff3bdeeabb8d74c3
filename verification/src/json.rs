//! A mathematical model of JSON documents, and the contracts under which the
//! library reads `serde_json` values.

use serde_json::Value;
use vstd::prelude::*;

verus! {

/// What a JSON document holds.
///
/// Integers are the numbers that `serde_json` keeps as a 64-bit integer,
/// signed or unsigned; every other number is a `Float`, whose value the
/// library never reads.
pub enum Json {
    Null,
    Bool(bool),
    Integer(int),
    Float,
    Text(Seq<char>),
    Array(Seq<Json>),
    Object(Map<Seq<char>, Json>),
}

/// `serde_json::Value`, carried as it is: the library reads it only through
/// the functions specified below.
#[verifier::external_type_specification]
#[verifier::external_body]
pub struct ExValue(serde_json::Value);

/// The document that a `serde_json::Value` holds.
pub uninterp spec fn value_model(value: Value) -> Json;

/// The document that `serde_json::from_str` reads from a text, if it is JSON.
pub uninterp spec fn json_parsed(text: Seq<char>) -> Option<Json>;

impl Json {
    /// The member `key` of an object; `None` for a missing key and for
    /// anything that is not an object.
    pub open spec fn field(self, key: Seq<char>) -> Option<Json> {
        match self {
            Json::Object(members) => if members.contains_key(key) {
                Some(members[key])
            } else {
                None
            },
            _ => None,
        }
    }

    /// The text of a string value.
    pub open spec fn text(self) -> Option<Seq<char>> {
        match self {
            Json::Text(s) => Some(s),
            _ => None,
        }
    }

    /// The value of an integer that fits in `u64`.
    pub open spec fn unsigned(self) -> Option<u64> {
        match self {
            Json::Integer(n) => if 0 <= n <= u64::MAX {
                Some(n as u64)
            } else {
                None
            },
            _ => None,
        }
    }

    /// The value of an integer that fits in `i64`.
    pub open spec fn signed(self) -> Option<i64> {
        match self {
            Json::Integer(n) => if i64::MIN <= n <= i64::MAX {
                Some(n as i64)
            } else {
                None
            },
            _ => None,
        }
    }

    /// The items of an array.
    pub open spec fn items(self) -> Option<Seq<Json>> {
        match self {
            Json::Array(items) => Some(items),
            _ => None,
        }
    }
}

/// `serde_json::from_str::<Value>`: succeeds exactly on the texts that
/// `json_parsed` names a document for, and returns a value holding it.
#[verifier::external_body]
pub(crate) fn parse(text: &str) -> (parsed: Option<Value>)
    ensures
        match parsed {
            Some(value) => json_parsed(text@) == Some(value_model(value)),
            None => json_parsed(text@) is None,
        },
{
    match serde_json::from_str::<Value>(text) {
        Ok(value) => Some(value),
        Err(_) => None,
    }
}

/// `Value::get` with a string index: the member of an object under `key`,
/// `None` where the value is no object or has no such member.
#[verifier::external_body]
pub(crate) fn get<'a>(value: &'a Value, key: &str) -> (member: Option<&'a Value>)
    ensures
        match member {
            Some(found) => value_model(*value).field(key@) == Some(value_model(*found)),
            None => value_model(*value).field(key@) is None,
        },
{
    value.get(key)
}

/// `Value == i32`: true exactly for the integer `code`.
#[verifier::external_body]
pub(crate) fn is_code(value: &Value, code: i32) -> (same: bool)
    ensures
        same == (value_model(*value) == Json::Integer(code as int)),
{
    *value == code
}

/// `Value::as_str`: the text of a string, `None` for anything else.
pub assume_specification<'a>[ Value::as_str ](value: &'a Value) -> (text: Option<&'a str>)
    ensures
        match text {
            Some(s) => value_model(*value).text() == Some(s@),
            None => value_model(*value).text() is None,
        },
;

/// `Value::as_u64`: the value of an integer that fits in `u64`, `None` for
/// anything else.
pub assume_specification[ Value::as_u64 ](value: &Value) -> (number: Option<u64>)
    ensures
        number == value_model(*value).unsigned(),
;

/// `Value::as_i64`: the value of an integer that fits in `i64`, `None` for
/// anything else.
pub assume_specification[ Value::as_i64 ](value: &Value) -> (number: Option<i64>)
    ensures
        number == value_model(*value).signed(),
;

/// `Value::as_array`: the items of an array in order, `None` for anything
/// else.
pub assume_specification<'a>[ Value::as_array ](value: &'a Value) -> (items: Option<
    &'a Vec<Value>,
>)
    ensures
        match items {
            Some(found) => value_model(*value).items() == Some(
                found@.map_values(|item: Value| value_model(item)),
            ),
            None => value_model(*value).items() is None,
        },
;

} // verus!
