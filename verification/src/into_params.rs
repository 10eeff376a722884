//! Decoding the payload of a call into the parameters of its handler.

use crate::error::RpcError;
use crate::json::{
    element, integer, invalid_length, is_null, is_object, length, member, missing_field,
    object_error,
};
#[allow(unused_imports)]
use crate::json::{
    json_element, json_integer, json_invalid_length, json_length, json_member,
    json_missing_field, json_view, Json,
};
use vstd::pervasive::unreached;
use serde_json::Value;
use vstd::prelude::*;

verus! {

/// A type that an untyped value can be converted into by its structure.
pub trait FromValue: Sized {
    /// Whether `outcome` is what the conversion of a value that holds
    /// `value` may give. An implementation that states nothing leaves every
    /// outcome open.
    open spec fn converts(value: Json, outcome: Result<Self, serde_json::Error>) -> bool {
        true
    }

    /// Converts `value`, or says what in it does not fit.
    fn from_value(value: Value) -> (outcome: Result<Self, serde_json::Error>)
        ensures
            Self::converts(json_view(value), outcome),
    ;
}

/// What a call's parameters are, given the outcome of converting the payload
/// where there was one, and what the parameter type has for a call without.
///
/// A payload that converts gives the parameters; one that does not gives
/// [`RpcError::ParamsParsingError`] with the cause. Without a payload the
/// parameters are `when_absent`, and [`RpcError::MissingParams`] where the
/// type has nothing for that.
pub open spec fn decoded<P, E>(
    converted: Option<Result<P, serde_json::Error>>,
    when_absent: Option<P>,
) -> Result<P, RpcError<E>> {
    match converted {
        Some(Ok(params)) => Ok(params),
        Some(Err(cause)) => Err(RpcError::ParamsParsingError(cause)),
        None => match when_absent {
            Some(params) => Ok(params),
            None => Err(RpcError::MissingParams),
        },
    }
}

/// Computes [`decoded`].
pub fn decode<P, E>(
    converted: Option<Result<P, serde_json::Error>>,
    when_absent: Option<P>,
) -> (params: Result<P, RpcError<E>>)
    ensures
        params == decoded::<P, E>(converted, when_absent),
{
    match converted {
        Some(Ok(params)) => Ok(params),
        Some(Err(cause)) => Err(RpcError::ParamsParsingError(cause)),
        None => match when_absent {
            Some(params) => Ok(params),
            None => Err(RpcError::MissingParams),
        },
    }
}

/// The parameter type of a handler.
///
/// A parameter type either needs a payload or has a value for a call that
/// brings none: [`IntoParams::when_absent`] says which.
pub trait IntoParams: FromValue {
    /// Whether `outcome` is what [`IntoParams::when_absent`] may give. An
    /// implementation that states nothing leaves every outcome open.
    open spec fn absent_gives(outcome: Option<Self>) -> bool {
        true
    }

    /// The parameters of a call without payload; `None` for a type that
    /// needs one.
    fn when_absent() -> (outcome: Option<Self>)
        ensures
            Self::absent_gives(outcome),
    ;

    /// Decodes the payload of a call into the parameters.
    ///
    /// A payload is handed to [`FromValue::from_value`] as it is, and
    /// [`IntoParams::when_absent`] is asked only where there is none. The
    /// result is [`decoded`] of what they gave.
    fn into_params<E>(value: Option<Value>) -> (params: Result<Self, RpcError<E>>)
        ensures
            match value {
                Some(payload) => exists|converted: Result<Self, serde_json::Error>|
                    #[trigger] Self::converts(json_view(payload), converted) && params == decoded::<
                        Self,
                        E,
                    >(Some(converted), None),
                None => exists|absent: Option<Self>| #[trigger]
                    Self::absent_gives(absent) && params == decoded::<Self, E>(None, absent),
            },
    {
        match value {
            Some(payload) => {
                let converted = Self::from_value(payload);
                decode(Some(converted), None)
            },
            None => {
                let absent = Self::when_absent();
                decode(None, absent)
            },
        }
    }
}

/// Whether `params` is what decoding `value` into `P` may give: the
/// postcondition of [`IntoParams::into_params`].
pub open spec fn decodes<P: IntoParams, E>(value: Option<Value>, params: Result<P, RpcError<E>>) -> bool {
    match value {
        Some(payload) => exists|converted: Result<P, serde_json::Error>| #[trigger]
            P::converts(json_view(payload), converted) && params == decoded::<P, E>(
                Some(converted),
                None,
            ),
        None => exists|absent: Option<P>| #[trigger]
            P::absent_gives(absent) && params == decoded::<P, E>(None, absent),
    }
}

/// The untyped value as a parameter type: the payload as it came.
impl FromValue for Value {
    open spec fn converts(value: Json, outcome: Result<Self, serde_json::Error>) -> bool {
        outcome matches Ok(same) && json_view(same) == value
    }

    fn from_value(value: Value) -> (outcome: Result<Self, serde_json::Error>)
        ensures
            outcome == Ok::<Value, serde_json::Error>(value),
    {
        Ok(value)
    }
}

/// A handler that takes the untyped payload needs one.
impl IntoParams for Value {
    open spec fn absent_gives(outcome: Option<Self>) -> bool {
        outcome is None
    }

    fn when_absent() -> (outcome: Option<Self>) {
        None
    }
}

/// An integer in the range of `i64`. A number in floating point is none,
/// whatever its value.
impl FromValue for i64 {
    open spec fn converts(value: Json, outcome: Result<Self, serde_json::Error>) -> bool {
        match json_integer(value) {
            Some(number) => outcome == Ok::<i64, serde_json::Error>(number),
            None => outcome is Err,
        }
    }

    fn from_value(value: Value) -> (outcome: Result<Self, serde_json::Error>) {
        integer(value)
    }
}

/// Whether `outcome` is what converting the member `name` of `value` into
/// `T` may give where the member is there, and nothing where it is not.
pub open spec fn present_member_converts<T: FromValue>(
    value: Json,
    name: Seq<char>,
    outcome: Result<Option<T>, serde_json::Error>,
) -> bool {
    match json_member(value, name) {
        Some(found) => match outcome {
            Ok(Some(converted)) => T::converts(found, Ok(converted)),
            Ok(None) => false,
            Err(cause) => T::converts(found, Err(cause)),
        },
        None => outcome == Ok::<Option<T>, serde_json::Error>(None),
    }
}

/// Converts the member `name` of `value` where it is there.
pub fn present_member<T: FromValue>(value: &Value, name: &str) -> (outcome: Result<
    Option<T>,
    serde_json::Error,
>)
    ensures
        present_member_converts(json_view(*value), name@, outcome),
{
    match member(value, name) {
        Some(found) => match T::from_value(found) {
            Ok(converted) => Ok(Some(converted)),
            Err(cause) => Err(cause),
        },
        None => Ok(None),
    }
}

/// What becomes of a member called `name` that has to be there: itself
/// where it is, and the error for a missing field where it is not.
pub open spec fn required<T>(name: Seq<char>, present: Option<T>) -> Result<T, serde_json::Error> {
    match present {
        Some(converted) => Ok(converted),
        None => Err(json_missing_field(name)),
    }
}

/// Computes [`required`].
pub fn require<T>(name: &'static str, present: Option<T>) -> (outcome: Result<T, serde_json::Error>)
    ensures
        outcome == required(name@, present),
{
    match present {
        Some(converted) => Ok(converted),
        None => Err(missing_field(name)),
    }
}

/// Whether `outcome` is what converting the member `name` of `value` into
/// `T` may give, where the member has to be there: the error for a missing
/// field where it is not, else what the member converts into.
pub open spec fn member_converts<T: FromValue>(
    value: Json,
    name: Seq<char>,
    outcome: Result<T, serde_json::Error>,
) -> bool {
    match json_member(value, name) {
        Some(found) => T::converts(found, outcome),
        None => outcome == Err::<T, serde_json::Error>(json_missing_field(name)),
    }
}

/// Converts the member `name` of `value`, which has to be there.
pub fn required_member<T: FromValue>(value: &Value, name: &'static str) -> (outcome: Result<
    T,
    serde_json::Error,
>)
    ensures
        member_converts(json_view(*value), name@, outcome),
{
    match present_member::<T>(value, name) {
        Ok(present) => require(name, present),
        Err(cause) => Err(cause),
    }
}

/// Whether `outcome` is what converting the member `name` of `value` into
/// `T` may give, where the member may be left out: nothing where it is not
/// there or is null, else what the member converts into.
pub open spec fn optional_member_converts<T: FromValue>(
    value: Json,
    name: Seq<char>,
    outcome: Result<Option<T>, serde_json::Error>,
) -> bool {
    match json_member(value, name) {
        None | Some(Json::Null) => outcome == Ok::<Option<T>, serde_json::Error>(None),
        Some(found) => match outcome {
            Ok(Some(converted)) => T::converts(found, Ok(converted)),
            Ok(None) => false,
            Err(cause) => T::converts(found, Err(cause)),
        },
    }
}

/// Converts the member `name` of `value`, which may be left out.
pub fn optional_member<T: FromValue>(value: &Value, name: &str) -> (outcome: Result<
    Option<T>,
    serde_json::Error,
>)
    ensures
        optional_member_converts(json_view(*value), name@, outcome),
{
    match member(value, name) {
        Some(found) => {
            if is_null(&found) {
                Ok(None)
            } else {
                match T::from_value(found) {
                    Ok(converted) => Ok(Some(converted)),
                    Err(cause) => Err(cause),
                }
            }
        },
        None => Ok(None),
    }
}

/// How the members of a parameter type are found in a payload.
pub enum Shape {
    /// In an object, by their names.
    ByName,
    /// In a list of so many elements, by their position.
    ByPosition(usize),
}

/// Tells how the members are to be found in `value`: by name in an object,
/// by position in a list, with the number of its elements. A text, a
/// number, a boolean and null give an error.
pub fn shape(value: &Value) -> (outcome: Result<Shape, serde_json::Error>)
    ensures
        match json_view(*value) {
            Json::Object(_) => outcome == Ok::<Shape, serde_json::Error>(Shape::ByName),
            Json::List(elements) => outcome matches Ok(Shape::ByPosition(counted)) && counted
                == elements.len(),
            _ => outcome is Err,
        },
{
    if is_object(value) {
        return Ok(Shape::ByName);
    }
    match length(value) {
        Some(elements) => Ok(Shape::ByPosition(elements)),
        None => match object_error(value) {
            Some(cause) => Err(cause),
            None => unreached(),
        },
    }
}

/// Whether `outcome` is what converting the element at `index` of `value`
/// into `T` may give: the error for a list of `index` elements where it is
/// not there, else what the element converts into.
pub open spec fn element_converts<T: FromValue>(
    value: Json,
    index: int,
    expected: Seq<char>,
    outcome: Result<T, serde_json::Error>,
) -> bool {
    match json_element(value, index) {
        Some(found) => T::converts(found, outcome),
        None => outcome == Err::<T, serde_json::Error>(
            json_invalid_length(index as nat, expected),
        ),
    }
}

/// Converts the element at `index` of `value`, which has to be there;
/// `expected` says in the error what the list should have been.
pub fn required_element<T: FromValue>(value: &Value, index: usize, expected: &'static str) -> (outcome:
    Result<T, serde_json::Error>)
    ensures
        element_converts(json_view(*value), index as int, expected@, outcome),
{
    match element(value, index) {
        Some(found) => T::from_value(found),
        None => Err(invalid_length(index, expected)),
    }
}

/// Whether `outcome` is what converting the element at `index` of `value`
/// into `T` may give, where the element may be null: the error for a list
/// of `index` elements where it is not there, nothing where it is null,
/// else what the element converts into.
pub open spec fn optional_element_converts<T: FromValue>(
    value: Json,
    index: int,
    expected: Seq<char>,
    outcome: Result<Option<T>, serde_json::Error>,
) -> bool {
    match json_element(value, index) {
        None => outcome == Err::<Option<T>, serde_json::Error>(
            json_invalid_length(index as nat, expected),
        ),
        Some(Json::Null) => outcome == Ok::<Option<T>, serde_json::Error>(None),
        Some(found) => match outcome {
            Ok(Some(converted)) => T::converts(found, Ok(converted)),
            Ok(None) => false,
            Err(cause) => T::converts(found, Err(cause)),
        },
    }
}

/// Converts the element at `index` of `value`, which has to be there and
/// may be null.
pub fn optional_element<T: FromValue>(value: &Value, index: usize, expected: &'static str) -> (outcome:
    Result<Option<T>, serde_json::Error>)
    ensures
        optional_element_converts(json_view(*value), index as int, expected@, outcome),
{
    match element(value, index) {
        Some(found) => {
            if is_null(&found) {
                Ok(None)
            } else {
                match T::from_value(found) {
                    Ok(converted) => Ok(Some(converted)),
                    Err(cause) => Err(cause),
                }
            }
        },
        None => Err(invalid_length(index, expected)),
    }
}

/// What becomes of parameters read from the first `members` elements of a
/// list of `elements`: themselves where the list has no more, and the error
/// for a list of that length where it has.
pub open spec fn closed<P>(elements: nat, members: nat, params: P) -> Result<P, serde_json::Error> {
    if elements > members {
        Err(json_invalid_length(elements, "fewer elements in array"@))
    } else {
        Ok(params)
    }
}

/// Computes [`closed`].
pub fn close<P>(elements: usize, members: usize, params: P) -> (outcome: Result<P, serde_json::Error>)
    ensures
        outcome == closed(elements as nat, members as nat, params),
{
    if elements > members {
        Err(invalid_length(elements, "fewer elements in array"))
    } else {
        Ok(params)
    }
}

} // verus!
