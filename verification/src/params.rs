//! Parameter types that many handlers share.
//!
//! A payload gives the members of such a type in one of two ways. An object
//! gives them by their names: members that the type does not know are
//! passed over, the members are converted in the order of their names, and
//! a member that is missing is reported after one that does not convert. A
//! list gives them by their position, in the order in which the type
//! declares them, and has to have as many elements as the type has members.
//! Every other payload is refused.

#[allow(unused_imports)]
use crate::error::RpcError;
#[allow(unused_imports)]
use crate::from_resources::FromResources;
use crate::into_params::{
    close, optional_element, optional_member, present_member, require, required_element,
    required_member, shape, FromValue, IntoParams, Shape,
};
#[allow(unused_imports)]
use crate::into_params::{
    closed, element_converts, member_converts, optional_element_converts,
    optional_member_converts, present_member_converts, required,
};
#[allow(unused_imports)]
use crate::json::{
    json_element, json_integer, json_member, json_missing_field, json_view, Json,
};
#[allow(unused_imports)]
use crate::rpc_handler::RpcHandler;
#[allow(unused_imports)]
use crate::rpc_handler_wrapper::{
    finishes, lemma_absent_payload_is_default, RpcHandlerWrapper, RpcHandlerWrapperTrait,
};
use modql::filter::ListOptions;
use serde_json::Value;
use vstd::prelude::*;

verus! {

/// The options of a list call, `modql::filter::ListOptions`: a limit, an
/// offset and an order. The dispatch core carries them through.
#[verifier::external_type_specification]
#[verifier::external_body]
pub struct ExListOptions(modql::filter::ListOptions);

/// The options that `serde_json::from_value::<ListOptions>` reads out of a
/// value that holds `value`; `None` where it reads none.
pub uninterp spec fn json_list_options(value: Json) -> Option<ListOptions>;

/// Converts with `serde_json::from_value::<ListOptions>`. Taken on trust:
/// whether it gives options, and which, depends on what the value holds.
/// Nothing is said of what the error holds.
#[verifier::external_body]
fn list_options(value: Value) -> (outcome: Result<ListOptions, serde_json::Error>)
    ensures
        match outcome {
            Ok(options) => json_list_options(json_view(value)) == Some(options),
            Err(_) => json_list_options(json_view(value)) is None,
        },
{
    serde_json::from_value::<ListOptions>(value)
}

impl FromValue for ListOptions {
    open spec fn converts(value: Json, outcome: Result<Self, serde_json::Error>) -> bool {
        match outcome {
            Ok(options) => json_list_options(value) == Some(options),
            Err(_) => json_list_options(value) is None,
        }
    }

    fn from_value(value: Value) -> (outcome: Result<Self, serde_json::Error>) {
        list_options(value)
    }
}

/// The parameters of a call that creates: `{ "data": .. }`, or `[data]`.
pub struct ParamsForCreate<D> {
    pub data: D,
}

impl<D: FromValue> FromValue for ParamsForCreate<D> {
    open spec fn converts(value: Json, outcome: Result<Self, serde_json::Error>) -> bool {
        match value {
            Json::Object(_) => match outcome {
                Ok(params) => member_converts::<D>(value, "data"@, Ok(params.data)),
                Err(cause) => member_converts::<D>(value, "data"@, Err(cause)),
            },
            Json::List(elements) => exists|data: Result<D, serde_json::Error>| #[trigger]
                element_converts::<D>(value, 0, "struct ParamsForCreate with 1 element"@, data)
                    && match data {
                    Ok(data) => outcome == closed(elements.len(), 1, ParamsForCreate { data }),
                    Err(cause) => outcome == Err::<Self, serde_json::Error>(cause),
                },
            _ => outcome is Err,
        }
    }

    fn from_value(value: Value) -> (outcome: Result<Self, serde_json::Error>) {
        match shape(&value) {
            Ok(Shape::ByName) => match required_member::<D>(&value, "data") {
                Ok(data) => Ok(ParamsForCreate { data }),
                Err(cause) => Err(cause),
            },
            Ok(Shape::ByPosition(elements)) => {
                let data = required_element::<D>(
                    &value,
                    0,
                    "struct ParamsForCreate with 1 element",
                );
                match data {
                    Ok(data) => close(elements, 1, ParamsForCreate { data }),
                    Err(cause) => Err(cause),
                }
            },
            Err(cause) => Err(cause),
        }
    }
}

/// A call that creates needs its payload.
impl<D: FromValue> IntoParams for ParamsForCreate<D> {
    open spec fn absent_gives(outcome: Option<Self>) -> bool {
        outcome is None
    }

    fn when_absent() -> (outcome: Option<Self>) {
        None
    }
}

/// The parameters of a call that updates: `{ "id": .., "data": .. }`, or
/// `[id, data]`.
pub struct ParamsForUpdate<D> {
    pub id: i64,
    pub data: D,
}

/// The parameters that the two members of an update give, each as it was
/// found in an object: the error for a missing field where one is not
/// there, `id` before `data`.
pub open spec fn update_of<D>(id: Option<i64>, data: Option<D>) -> Result<
    ParamsForUpdate<D>,
    serde_json::Error,
> {
    match required("id"@, id) {
        Ok(id) => match required("data"@, data) {
            Ok(data) => Ok(ParamsForUpdate { id, data }),
            Err(cause) => Err(cause),
        },
        Err(cause) => Err(cause),
    }
}

impl<D: FromValue> FromValue for ParamsForUpdate<D> {
    /// In an object `data` is converted before `id`, and a member that does
    /// not convert is reported before one that is missing. In a list `id`
    /// is converted before `data`.
    open spec fn converts(value: Json, outcome: Result<Self, serde_json::Error>) -> bool {
        match value {
            Json::Object(_) => exists|data: Result<Option<D>, serde_json::Error>| #[trigger]
                present_member_converts::<D>(value, "data"@, data) && match data {
                    Ok(data) => exists|id: Result<Option<i64>, serde_json::Error>| #[trigger]
                        present_member_converts::<i64>(value, "id"@, id) && match id {
                            Ok(id) => outcome == update_of(id, data),
                            Err(cause) => outcome == Err::<Self, serde_json::Error>(cause),
                        },
                    Err(cause) => outcome == Err::<Self, serde_json::Error>(cause),
                },
            Json::List(elements) => exists|id: Result<i64, serde_json::Error>| #[trigger]
                element_converts::<i64>(value, 0, "struct ParamsForUpdate with 2 elements"@, id)
                    && match id {
                    Ok(id) => exists|data: Result<D, serde_json::Error>| #[trigger]
                        element_converts::<D>(
                            value,
                            1,
                            "struct ParamsForUpdate with 2 elements"@,
                            data,
                        ) && match data {
                            Ok(data) => outcome == closed(
                                elements.len(),
                                2,
                                ParamsForUpdate { id, data },
                            ),
                            Err(cause) => outcome == Err::<Self, serde_json::Error>(cause),
                        },
                    Err(cause) => outcome == Err::<Self, serde_json::Error>(cause),
                },
            _ => outcome is Err,
        }
    }

    fn from_value(value: Value) -> (outcome: Result<Self, serde_json::Error>) {
        match shape(&value) {
            Ok(Shape::ByName) => {
                let data = match present_member::<D>(&value, "data") {
                    Ok(data) => data,
                    Err(cause) => {
                        return Err(cause);
                    },
                };
                let id = match present_member::<i64>(&value, "id") {
                    Ok(id) => id,
                    Err(cause) => {
                        return Err(cause);
                    },
                };
                let id = match require("id", id) {
                    Ok(id) => id,
                    Err(cause) => {
                        return Err(cause);
                    },
                };
                match require("data", data) {
                    Ok(data) => Ok(ParamsForUpdate { id, data }),
                    Err(cause) => Err(cause),
                }
            },
            Ok(Shape::ByPosition(elements)) => {
                let id = required_element::<i64>(
                    &value,
                    0,
                    "struct ParamsForUpdate with 2 elements",
                );
                let id = match id {
                    Ok(id) => id,
                    Err(cause) => {
                        return Err(cause);
                    },
                };
                let data = required_element::<D>(
                    &value,
                    1,
                    "struct ParamsForUpdate with 2 elements",
                );
                match data {
                    Ok(data) => close(elements, 2, ParamsForUpdate { id, data }),
                    Err(cause) => Err(cause),
                }
            },
            Err(cause) => Err(cause),
        }
    }
}

/// Where the member `data` of an update is there and does not convert, its
/// error is the outcome, whatever the member `id` is or whether it is there.
pub proof fn lemma_update_reports_data_first<D: FromValue>(
    value: Json,
    cause: serde_json::Error,
    outcome: Result<ParamsForUpdate<D>, serde_json::Error>,
)
    requires
        value is Object,
        json_member(value, "data"@) matches Some(found) && forall|converted: Result<
            D,
            serde_json::Error,
        >| #[trigger]
            D::converts(found, converted) ==> converted == Err::<D, serde_json::Error>(cause),
        ParamsForUpdate::<D>::converts(value, outcome),
    ensures
        outcome == Err::<ParamsForUpdate<D>, serde_json::Error>(cause),
{
}

/// An update converts out of an object where both members are there and
/// convert, and into what they convert into. Where neither member is
/// there, the outcome is the error for the missing `id`.
pub proof fn lemma_update_converts_both<D: FromValue>(
    value: Json,
    outcome: Result<ParamsForUpdate<D>, serde_json::Error>,
)
    requires
        value is Object,
        ParamsForUpdate::<D>::converts(value, outcome),
    ensures
        outcome matches Ok(params) ==> member_converts::<i64>(value, "id"@, Ok(params.id))
            && member_converts::<D>(value, "data"@, Ok(params.data)),
        json_member(value, "id"@) is None && json_member(value, "data"@) is None ==> outcome
            == Err::<ParamsForUpdate<D>, serde_json::Error>(json_missing_field("id"@)),
{
}

/// An update converts out of a list where the list has two elements that
/// convert, the first into `id` and the second into `data`.
pub proof fn lemma_update_converts_by_position<D: FromValue>(
    value: Json,
    outcome: Result<ParamsForUpdate<D>, serde_json::Error>,
)
    requires
        value is List,
        ParamsForUpdate::<D>::converts(value, outcome),
    ensures
        outcome matches Ok(params) ==> value->List_0.len() == 2 && i64::converts(
            value->List_0[0],
            Ok(params.id),
        ) && D::converts(value->List_0[1], Ok(params.data)),
        value->List_0.len() != 2 ==> outcome is Err,
{
}

/// A call that updates needs its payload.
impl<D: FromValue> IntoParams for ParamsForUpdate<D> {
    open spec fn absent_gives(outcome: Option<Self>) -> bool {
        outcome is None
    }

    fn when_absent() -> (outcome: Option<Self>) {
        None
    }
}

/// The parameters of a call on one entity: `{ "id": .. }`, or `[id]`.
pub struct ParamsIded {
    pub id: i64,
}

impl FromValue for ParamsIded {
    open spec fn converts(value: Json, outcome: Result<Self, serde_json::Error>) -> bool {
        match value {
            Json::Object(_) => match outcome {
                Ok(params) => member_converts::<i64>(value, "id"@, Ok(params.id)),
                Err(cause) => member_converts::<i64>(value, "id"@, Err(cause)),
            },
            Json::List(elements) => exists|id: Result<i64, serde_json::Error>| #[trigger]
                element_converts::<i64>(value, 0, "struct ParamsIded with 1 element"@, id)
                    && match id {
                    Ok(id) => outcome == closed(elements.len(), 1, ParamsIded { id }),
                    Err(cause) => outcome == Err::<Self, serde_json::Error>(cause),
                },
            _ => outcome is Err,
        }
    }

    fn from_value(value: Value) -> (outcome: Result<Self, serde_json::Error>) {
        match shape(&value) {
            Ok(Shape::ByName) => match required_member::<i64>(&value, "id") {
                Ok(id) => Ok(ParamsIded { id }),
                Err(cause) => Err(cause),
            },
            Ok(Shape::ByPosition(elements)) => {
                let id = required_element::<i64>(&value, 0, "struct ParamsIded with 1 element");
                match id {
                    Ok(id) => close(elements, 1, ParamsIded { id }),
                    Err(cause) => Err(cause),
                }
            },
            Err(cause) => Err(cause),
        }
    }
}

/// A call on one entity needs its payload.
impl IntoParams for ParamsIded {
    open spec fn absent_gives(outcome: Option<Self>) -> bool {
        outcome is None
    }

    fn when_absent() -> (outcome: Option<Self>) {
        None
    }
}

/// The identifier that a payload brings: the member `id` of an object or
/// the one element of a list, where that is an integer in the range of
/// `i64`.
pub open spec fn id_of(value: Json) -> Option<i64> {
    match value {
        Json::Object(_) => match json_member(value, "id"@) {
            Some(found) => json_integer(found),
            None => None,
        },
        Json::List(elements) => if elements.len() == 1 {
            json_integer(elements[0])
        } else {
            None
        },
        _ => None,
    }
}

/// A payload converts into [`ParamsIded`] where it brings an identifier, and
/// into that identifier. Every other payload is refused; an object that has
/// no member `id`, with the error for the missing field.
pub proof fn lemma_ided_converts_by_id(value: Json, outcome: Result<ParamsIded, serde_json::Error>)
    requires
        ParamsIded::converts(value, outcome),
    ensures
        match id_of(value) {
            Some(id) => outcome == Ok::<ParamsIded, serde_json::Error>(ParamsIded { id }),
            None => outcome is Err,
        },
        value is Object && json_member(value, "id"@) is None ==> outcome == Err::<
            ParamsIded,
            serde_json::Error,
        >(json_missing_field("id"@)),
{
}

/// A call of a handler that takes [`ParamsIded`]: with a payload that
/// brings an identifier the handler runs on that identifier, and with any
/// other payload the call fails with [`RpcError::ParamsParsingError`]. This
/// holds where the bag can give the handler's resources.
pub proof fn lemma_call_by_id<B, E, H: RpcHandler<B, E, Params = ParamsIded>>(
    wrapper: RpcHandlerWrapper<H>,
    payload: Value,
    rpc_resources: B,
    result: Result<Value, RpcError<E>>,
)
    requires
        !H::Resources::extracts(&rpc_resources, None),
        wrapper.may_yield(rpc_resources, Some(payload), result),
    ensures
        match id_of(json_view(payload)) {
            Some(id) => exists|resources: H::Resources, handled: Result<H::Output, E>|
                H::Resources::extracts(&rpc_resources, Some(resources)) && #[trigger]
                wrapper.handler().handles(resources, ParamsIded { id }, handled) && finishes(
                    handled,
                    result,
                ),
            None => result matches Err(RpcError::ParamsParsingError(_)),
        },
{
}

/// The parameters of a call that lists: `{ "filter": .., "list_options": .. }`,
/// where either member may be left out or null, or `[filter, list_options]`,
/// where either element may be null.
pub struct ParamsList<F> {
    pub filter: Option<F>,
    pub list_options: Option<ListOptions>,
}

/// No filter and no options.
impl<F> Default for ParamsList<F> {
    fn default() -> (params: Self)
        ensures
            params.filter is None,
            params.list_options is None,
    {
        ParamsList { filter: None, list_options: None }
    }
}

impl<F: FromValue> FromValue for ParamsList<F> {
    /// `filter` is converted before `list_options`.
    open spec fn converts(value: Json, outcome: Result<Self, serde_json::Error>) -> bool {
        match value {
            Json::Object(_) => exists|filter: Result<Option<F>, serde_json::Error>| #[trigger]
                optional_member_converts::<F>(value, "filter"@, filter) && match filter {
                    Ok(filter) => exists|list_options: Result<
                        Option<ListOptions>,
                        serde_json::Error,
                    >| #[trigger]
                        optional_member_converts::<ListOptions>(
                            value,
                            "list_options"@,
                            list_options,
                        ) && match list_options {
                            Ok(list_options) => outcome == Ok::<Self, serde_json::Error>(
                                ParamsList { filter, list_options },
                            ),
                            Err(cause) => outcome == Err::<Self, serde_json::Error>(cause),
                        },
                    Err(cause) => outcome == Err::<Self, serde_json::Error>(cause),
                },
            Json::List(elements) => exists|filter: Result<Option<F>, serde_json::Error>|
                #[trigger] optional_element_converts::<F>(
                    value,
                    0,
                    "struct ParamsList with 2 elements"@,
                    filter,
                ) && match filter {
                    Ok(filter) => exists|list_options: Result<
                        Option<ListOptions>,
                        serde_json::Error,
                    >| #[trigger]
                        optional_element_converts::<ListOptions>(
                            value,
                            1,
                            "struct ParamsList with 2 elements"@,
                            list_options,
                        ) && match list_options {
                            Ok(list_options) => outcome == closed(
                                elements.len(),
                                2,
                                ParamsList { filter, list_options },
                            ),
                            Err(cause) => outcome == Err::<Self, serde_json::Error>(cause),
                        },
                    Err(cause) => outcome == Err::<Self, serde_json::Error>(cause),
                },
            _ => outcome is Err,
        }
    }

    fn from_value(value: Value) -> (outcome: Result<Self, serde_json::Error>) {
        match shape(&value) {
            Ok(Shape::ByName) => {
                let filter = match optional_member::<F>(&value, "filter") {
                    Ok(filter) => filter,
                    Err(cause) => {
                        return Err(cause);
                    },
                };
                match optional_member::<ListOptions>(&value, "list_options") {
                    Ok(list_options) => Ok(ParamsList { filter, list_options }),
                    Err(cause) => Err(cause),
                }
            },
            Ok(Shape::ByPosition(elements)) => {
                let filter = optional_element::<F>(
                    &value,
                    0,
                    "struct ParamsList with 2 elements",
                );
                let filter = match filter {
                    Ok(filter) => filter,
                    Err(cause) => {
                        return Err(cause);
                    },
                };
                let list_options = optional_element::<ListOptions>(
                    &value,
                    1,
                    "struct ParamsList with 2 elements",
                );
                match list_options {
                    Ok(list_options) => close(elements, 2, ParamsList { filter, list_options }),
                    Err(cause) => Err(cause),
                }
            },
            Err(cause) => Err(cause),
        }
    }
}

/// A call that lists may come without payload, and is then a call without
/// filter and without options.
impl<F: FromValue> IntoParams for ParamsList<F> {
    open spec fn absent_gives(outcome: Option<Self>) -> bool {
        outcome == Some(ParamsList::<F> { filter: None, list_options: None })
    }

    fn when_absent() -> (outcome: Option<Self>) {
        Some(ParamsList::default())
    }
}

/// A call without payload of a handler that takes [`ParamsList`] runs the
/// handler on parameters without filter and without options. This holds
/// where the bag can give the handler's resources.
pub proof fn lemma_call_list_without_payload<B, E, F: FromValue, H: RpcHandler<B, E, Params = ParamsList<F>>>(
    wrapper: RpcHandlerWrapper<H>,
    rpc_resources: B,
    result: Result<Value, RpcError<E>>,
)
    requires
        !H::Resources::extracts(&rpc_resources, None),
        wrapper.may_yield(rpc_resources, None, result),
    ensures
        exists|resources: H::Resources, handled: Result<H::Output, E>|
            H::Resources::extracts(&rpc_resources, Some(resources)) && #[trigger]
            wrapper.handler().handles(
                resources,
                ParamsList::<F> { filter: None, list_options: None },
                handled,
            ) && finishes(handled, result),
{
    lemma_absent_payload_is_default(
        wrapper,
        ParamsList::<F> { filter: None, list_options: None },
        rpc_resources,
        result,
    );
}

/// A payload that is there and is neither an object nor a list does not
/// convert into [`ParamsList`]: the parameters of a call without payload do
/// not stand in for it. Nor does a list that has not two elements.
pub proof fn lemma_list_refuses_other_payloads<F: FromValue>(
    value: Json,
    outcome: Result<ParamsList<F>, serde_json::Error>,
)
    requires
        !(value is Object),
        value matches Json::List(elements) ==> elements.len() != 2,
        ParamsList::<F>::converts(value, outcome),
    ensures
        outcome is Err,
{
}

/// A call of a handler that takes [`ParamsList`] with a payload that is
/// neither an object nor a list fails with
/// [`RpcError::ParamsParsingError`], and the handler does not run. This
/// holds where the bag can give the handler's resources.
pub proof fn lemma_call_list_with_other_payload<B, E, F: FromValue, H: RpcHandler<B, E, Params = ParamsList<F>>>(
    wrapper: RpcHandlerWrapper<H>,
    payload: Value,
    rpc_resources: B,
    result: Result<Value, RpcError<E>>,
)
    requires
        !(json_view(payload) is Object),
        !(json_view(payload) is List),
        !H::Resources::extracts(&rpc_resources, None),
        wrapper.may_yield(rpc_resources, Some(payload), result),
    ensures
        result matches Err(RpcError::ParamsParsingError(_)),
{
}

} // verus!
