//! JSON values as `serde_json` holds them, and what this library reads of
//! them.
//!
//! A `serde_json::Value` is opaque to the verifier. Its content is named by
//! [`json_of`], a value of the mathematical type [`Json`], and every accessor
//! used by the decoders is given a contract over that content. Those
//! contracts are taken on trust from `serde_json`; everything built on them
//! is proved.
use serde_json::Value;
use vstd::prelude::*;

verus! {

/// `serde_json::Value`, carried as it is. Nothing inside it is visible to
/// the verifier; what it holds is spoken of through `json_of`.
#[verifier::external_type_specification]
#[verifier::external_body]
pub struct ExValue(serde_json::Value);

/// `serde_json::Error`, carried as it is. The decoders only learn from it
/// that parsing failed.
#[verifier::external_type_specification]
#[verifier::external_body]
pub struct ExSyntaxError(serde_json::Error);

/// The content of a JSON value.
///
/// A number is either an integer that fits `i64` or `u64`, kept exactly, or
/// anything else (a fraction, an exponent, an integer too large for both),
/// of which only the kind is kept.
pub enum Json {
    Null,
    Bool(bool),
    Integer(int),
    Real,
    Text(Seq<char>),
    Array(Seq<Json>),
    Object(Map<Seq<char>, Json>),
}

/// What a `serde_json::Value` holds. The accessors below are specified over
/// this content; it has no other definition.
pub uninterp spec fn json_of(v: Value) -> Json;

/// What `serde_json::from_slice` reads from a body: the document's content,
/// or `None` where the bytes are not one well-formed JSON document.
pub uninterp spec fn json_document(body: Seq<u8>) -> Option<Json>;

/// The contents of a run of values, in order.
pub open spec fn json_items(items: Seq<Value>) -> Seq<Json> {
    Seq::new(items.len(), |i: int| json_of(items[i]))
}

/// The member of an object under `key`; `None` for a missing member and for
/// anything that is not an object.
pub open spec fn member(m: Json, key: Seq<char>) -> Option<Json> {
    match m {
        Json::Object(members) => if members.contains_key(key) {
            Some(members[key])
        } else {
            None
        },
        _ => None,
    }
}

/// The number as a `u64`, where it is an integer in that range.
pub open spec fn unsigned_of(m: Json) -> Option<u64> {
    match m {
        Json::Integer(i) => if 0 <= i <= u64::MAX {
            Some(i as u64)
        } else {
            None
        },
        _ => None,
    }
}

/// The number as an `i64`, where it is an integer in that range.
pub open spec fn signed_of(m: Json) -> Option<i64> {
    match m {
        Json::Integer(i) => if i64::MIN <= i <= i64::MAX {
            Some(i as i64)
        } else {
            None
        },
        _ => None,
    }
}

/// The text of a string, where the value is one.
pub open spec fn text_of(m: Json) -> Option<Seq<char>> {
    match m {
        Json::Text(s) => Some(s),
        _ => None,
    }
}

/// `serde_json::Value::as_u64`: the integer, if the value is a number that
/// `u64` can hold exactly.
pub assume_specification[ Value::as_u64 ](v: &Value) -> (r: Option<u64>)
    ensures
        r == unsigned_of(json_of(*v)),
;

/// `serde_json::Value::as_i64`: the integer, if the value is a number that
/// `i64` can hold exactly.
pub assume_specification[ Value::as_i64 ](v: &Value) -> (r: Option<i64>)
    ensures
        r == signed_of(json_of(*v)),
;

/// `serde_json::Value::as_str`: the text, if the value is a string.
pub assume_specification<'a>[ Value::as_str ](v: &'a Value) -> (r: Option<&'a str>)
    ensures
        (match r {
            Some(s) => text_of(json_of(*v)) == Some(s@),
            None => text_of(json_of(*v)) is None,
        }),
;

/// `serde_json::Value::as_array`: the elements, if the value is an array.
pub assume_specification<'a>[ Value::as_array ](v: &'a Value) -> (r: Option<&'a Vec<Value>>)
    ensures
        (match r {
            Some(items) => json_of(*v) == Json::Array(json_items(items@)),
            None => !(json_of(*v) is Array),
        }),
;

/// `serde_json::Value::is_null`: whether the value is `null`.
pub assume_specification[ Value::is_null ](v: &Value) -> (r: bool)
    ensures
        r == (json_of(*v) is Null),
;

/// `serde_json::Value::is_object`: whether the value is an object.
pub assume_specification[ Value::is_object ](v: &Value) -> (r: bool)
    ensures
        r == (json_of(*v) is Object),
;

/// `serde_json::Value::get` with a string index: the member under `key`,
/// if the value is an object that has one.
#[verifier::external_body]
pub(crate) fn get_member<'a>(v: &'a Value, key: &str) -> (r: Option<&'a Value>)
    ensures
        (match r {
            Some(found) => member(json_of(*v), key@) == Some(json_of(*found)),
            None => member(json_of(*v), key@) is None,
        }),
{
    v.get(key)
}

/// `serde_json::from_slice` at type `Value`: the document that the bytes
/// spell, or the parser's error.
#[verifier::external_body]
pub(crate) fn parse_document(body: &[u8]) -> (r: Result<Value, serde_json::Error>)
    ensures
        (match r {
            Ok(v) => json_document(body@) == Some(json_of(v)),
            Err(_) => json_document(body@) is None,
        }),
{
    serde_json::from_slice(body)
}

} // verus!
