//! The untyped value and what this crate asks of it.
//!
//! The dispatch core carries a `serde_json::Value` through and never looks
//! inside. The parameter types of this crate do: they ask whether it is an
//! object or a list, for a member or an element, for null and for an
//! integer, through the functions below, whose contracts are taken on trust
//! from `serde_json` and stated over [`Json`], the model of what a value
//! holds. None of them makes a value anew out of the payload: a member or an
//! element is handed out as a copy.

use serde_json::Value;
use vstd::prelude::*;

verus! {

/// The untyped value, `serde_json::Value`.
#[verifier::external_type_specification]
#[verifier::external_body]
pub struct ExValue(serde_json::Value);

/// The error of a conversion from or to an untyped value, `serde_json::Error`.
#[verifier::external_type_specification]
#[verifier::external_body]
pub struct ExJsonError(serde_json::Error);

/// What an untyped value holds.
pub enum Json {
    Null,
    Boolean(bool),
    /// A number that is held as an integer. It lies between `i64::MIN` and
    /// `u64::MAX`.
    Integer(int),
    /// A number that is held in floating point.
    Float,
    Text(Seq<char>),
    List(Seq<Json>),
    /// The members by name.
    Object(Map<Seq<char>, Json>),
}

/// What `value` holds.
pub uninterp spec fn json_view(value: Value) -> Json;

/// The member called `name` of `value`: `None` where `value` is no object
/// or has no member of that name.
pub open spec fn json_member(value: Json, name: Seq<char>) -> Option<Json> {
    match value {
        Json::Object(members) => if members.contains_key(name) {
            Some(members[name])
        } else {
            None
        },
        _ => None,
    }
}

/// The element at `index` of `value`: `None` where `value` is no list or is
/// too short.
pub open spec fn json_element(value: Json, index: int) -> Option<Json> {
    match value {
        Json::List(elements) => if 0 <= index < elements.len() {
            Some(elements[index])
        } else {
            None
        },
        _ => None,
    }
}

/// The number of elements of `value`, where it is a list.
pub open spec fn json_length(value: Json) -> Option<nat> {
    match value {
        Json::List(elements) => Some(elements.len()),
        _ => None,
    }
}

/// The integer that `value` is, where it is one that an `i64` can hold.
pub open spec fn json_integer(value: Json) -> Option<i64> {
    match value {
        Json::Integer(number) => if i64::MIN <= number <= i64::MAX {
            Some(number as i64)
        } else {
            None
        },
        _ => None,
    }
}

/// The error that `serde_json::Error` makes for a member called `name` that
/// should be there and is not.
pub uninterp spec fn json_missing_field(name: Seq<char>) -> serde_json::Error;

/// Asks `serde_json::Value::is_object`. Taken on trust: it tells whether
/// the value is an object.
#[verifier::external_body]
pub(crate) fn is_object(value: &Value) -> (yes: bool)
    ensures
        yes == (json_view(*value) is Object),
{
    value.is_object()
}

/// Asks `serde_json::Value::as_array` for the list and the list for its
/// length. Taken on trust: it gives the number of elements where the value
/// is a list, and nothing in every other value.
#[verifier::external_body]
pub(crate) fn length(value: &Value) -> (outcome: Option<usize>)
    ensures
        match json_length(json_view(*value)) {
            Some(elements) => outcome matches Some(counted) && counted == elements,
            None => outcome is None,
        },
{
    value.as_array().map(Vec::len)
}

/// Looks up the element at `index` with `serde_json::Value::get` and hands
/// out a copy of what is found. Taken on trust: it finds the element where
/// the value is a list that is long enough, and nothing in every other
/// value.
#[verifier::external_body]
pub(crate) fn element(value: &Value, index: usize) -> (found: Option<Value>)
    ensures
        match json_element(json_view(*value), index as int) {
            Some(inner) => found matches Some(copy) && json_view(copy) == inner,
            None => found is None,
        },
{
    value.get(index).cloned()
}

/// Asks `serde_json::from_value` for a `serde_json::Map<String, Value>` out
/// of a copy of the value and keeps the error. Taken on trust: there is an
/// error for every value that is no object. Nothing is said of what the
/// error holds, nor of what comes of an object.
#[verifier::external_body]
pub(crate) fn object_error(value: &Value) -> (outcome: Option<serde_json::Error>)
    ensures
        !(json_view(*value) is Object) ==> outcome is Some,
{
    serde_json::from_value::<serde_json::Map<String, Value>>(value.clone()).err()
}

/// Makes the error for a list of the wrong length with
/// `serde::de::Error::invalid_length` of `serde_json::Error`. Taken on
/// trust: the error depends on the length and on what was expected alone.
#[verifier::external_body]
pub(crate) fn invalid_length(length: usize, expected: &'static str) -> (error: serde_json::Error)
    ensures
        error == json_invalid_length(length as nat, expected@),
{
    let error: serde_json::Error = serde::de::Error::invalid_length(length, &expected);
    error
}

/// The error that `serde_json::Error` makes for a list of `length` elements
/// where `expected` was expected.
pub uninterp spec fn json_invalid_length(length: nat, expected: Seq<char>) -> serde_json::Error;

/// Looks `name` up with `serde_json::Value::get` and hands out a copy of
/// what is found. Taken on trust: it finds the member of that name where
/// the value is an object that has one, and nothing in every other value.
#[verifier::external_body]
pub(crate) fn member(value: &Value, name: &str) -> (found: Option<Value>)
    ensures
        match json_member(json_view(*value), name@) {
            Some(inner) => found matches Some(copy) && json_view(copy) == inner,
            None => found is None,
        },
{
    value.get(name).cloned()
}

/// Asks `serde_json::Value::is_null`. Taken on trust: it tells whether the
/// value is null.
#[verifier::external_body]
pub(crate) fn is_null(value: &Value) -> (null: bool)
    ensures
        null == (json_view(*value) is Null),
{
    value.is_null()
}

/// Converts with `serde_json::from_value::<i64>`. Taken on trust: it gives
/// the number where the value is held as an integer in the range of `i64`,
/// and an error for every other value. Nothing is said of what the error
/// holds.
#[verifier::external_body]
pub(crate) fn integer(value: Value) -> (outcome: Result<i64, serde_json::Error>)
    ensures
        match json_integer(json_view(value)) {
            Some(number) => outcome == Ok::<i64, serde_json::Error>(number),
            None => outcome is Err,
        },
{
    serde_json::from_value::<i64>(value)
}

/// Makes the error for a missing member with `serde::de::Error::missing_field`
/// of `serde_json::Error`. Taken on trust: the error depends on the name
/// alone.
#[verifier::external_body]
pub(crate) fn missing_field(name: &'static str) -> (error: serde_json::Error)
    ensures
        error == json_missing_field(name@),
{
    let error: serde_json::Error = serde::de::Error::missing_field(name);
    error
}

} // verus!
