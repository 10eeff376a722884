//! A handler behind the one shape that a router can store and call.

use crate::error::RpcError;
use crate::from_resources::FromResources;
use crate::into_params::IntoParams;
#[allow(unused_imports)]
use crate::into_params::{decodes, FromValue};
use crate::into_value::IntoValue;
#[allow(unused_imports)]
use crate::json::json_view;
use crate::rpc_handler::RpcHandler;
use serde_json::Value;
use vstd::prelude::*;

verus! {

/// What a router stores and calls: a route that takes the bag and the
/// payload and gives the untyped result, whatever the types of the handler
/// behind it.
pub trait RpcHandlerWrapperTrait<B, E> {
    /// Whether `result` is what a call on these inputs may give. An
    /// implementation that states nothing leaves every result open.
    open spec fn may_yield(
        &self,
        rpc_resources: B,
        params: Option<Value>,
        result: Result<Value, RpcError<E>>,
    ) -> bool {
        true
    }

    /// Serves one call.
    fn call(&self, rpc_resources: B, params: Option<Value>) -> (result: Result<Value, RpcError<E>>)
        ensures
            self.may_yield(rpc_resources, params, result),
    ;
}

/// A route on the heap is the route. This is what lets one router hold
/// routes around handlers of different types, each as a
/// `Box<dyn RpcHandlerWrapperTrait<B, E>>`.
impl<B, E, W: RpcHandlerWrapperTrait<B, E> + ?Sized> RpcHandlerWrapperTrait<B, E> for Box<W> {
    open spec fn may_yield(
        &self,
        rpc_resources: B,
        params: Option<Value>,
        result: Result<Value, RpcError<E>>,
    ) -> bool {
        (**self).may_yield(rpc_resources, params, result)
    }

    fn call(&self, rpc_resources: B, params: Option<Value>) -> (result: Result<Value, RpcError<E>>) {
        (**self).call(rpc_resources, params)
    }
}

/// Whether `prepared` is what comes before a handler runs: its resources
/// taken from `bag`, and then `params` decoded into its parameter type.
///
/// Where a resource cannot be had the outcome is
/// [`RpcError::ResourceExtractionError`], whatever the payload holds. Where
/// the resources are there and the payload does not decode, it is the error
/// of the decoding.
pub open spec fn prepares<B, T: FromResources<B>, P: IntoParams, E>(
    bag: &B,
    params: Option<Value>,
    prepared: Result<(T, P), RpcError<E>>,
) -> bool {
    match prepared {
        Ok(inputs) => T::extracts(bag, Some(inputs.0)) && decodes::<P, E>(params, Ok(inputs.1)),
        Err(error) => (T::extracts(bag, None) && error == RpcError::<E>::ResourceExtractionError)
            || (decodes::<P, E>(params, Err(error)) && exists|resources: T|
                T::extracts(bag, Some(resources))),
    }
}

/// Takes the resources `T` from `bag` and then decodes `params` into `P`:
/// the part of a call before the handler runs.
pub fn prepare<B, T: FromResources<B>, P: IntoParams, E>(bag: &B, params: Option<Value>) -> (prepared:
    Result<(T, P), RpcError<E>>)
    ensures
        prepares::<B, T, P, E>(bag, params, prepared),
{
    let resources = match T::from_resources(bag) {
        Some(resources) => resources,
        None => {
            return Err(RpcError::ResourceExtractionError);
        },
    };
    match P::into_params::<E>(params) {
        Ok(decoded) => Ok((resources, decoded)),
        Err(error) => Err(error),
    }
}

/// What a call gives, given how its handler ended and, where it succeeded,
/// what turning its result into a value gave.
///
/// A handler's error comes out as [`RpcError::Handler`] with the error as it
/// was; a result that cannot be a value as [`RpcError::SerializationError`].
pub open spec fn finished<R, E>(
    handled: Result<R, E>,
    serialized: Result<Value, serde_json::Error>,
) -> Result<Value, RpcError<E>> {
    match handled {
        Ok(_) => match serialized {
            Ok(value) => Ok(value),
            Err(cause) => Err(RpcError::SerializationError(cause)),
        },
        Err(error) => Err(RpcError::Handler(error)),
    }
}

/// Whether `result` is what comes after a handler has ended with `handled`.
pub open spec fn finishes<R: IntoValue, E>(
    handled: Result<R, E>,
    result: Result<Value, RpcError<E>>,
) -> bool {
    match handled {
        Ok(output) => exists|serialized: Result<Value, serde_json::Error>| #[trigger]
            output.serializes(serialized) && result == finished(handled, serialized),
        Err(error) => result == Err::<Value, RpcError<E>>(RpcError::Handler(error)),
    }
}

/// Turns what a handler ended with into the result of the call: the part of
/// a call after the handler has run.
pub fn finish<R: IntoValue, E>(handled: Result<R, E>) -> (result: Result<Value, RpcError<E>>)
    ensures
        finishes(handled, result),
{
    match handled {
        Ok(output) => {
            match output.into_value() {
                Ok(value) => Ok(value),
                Err(cause) => Err(RpcError::SerializationError(cause)),
            }
        },
        Err(error) => Err(RpcError::Handler(error)),
    }
}

/// A handler made into a route.
pub struct RpcHandlerWrapper<H> {
    handler: H,
}

impl<H> RpcHandlerWrapper<H> {
    /// The handler inside.
    pub closed spec fn handler(&self) -> H {
        self.handler
    }

    /// Wraps `handler`.
    pub fn new(handler: H) -> (wrapper: Self)
        ensures
            wrapper.handler() == handler,
    {
        RpcHandlerWrapper { handler }
    }
}

impl<B, E, H: RpcHandler<B, E>> RpcHandlerWrapperTrait<B, E> for RpcHandlerWrapper<H> {
    /// A call prepares the handler's inputs, runs the handler on exactly
    /// those, and finishes with what it gave. An error of the preparation
    /// is the result, and the handler does not run.
    open spec fn may_yield(
        &self,
        rpc_resources: B,
        params: Option<Value>,
        result: Result<Value, RpcError<E>>,
    ) -> bool {
        exists|prepared: Result<(H::Resources, H::Params), RpcError<E>>| #[trigger]
            prepares::<B, H::Resources, H::Params, E>(&rpc_resources, params, prepared)
                && match prepared {
                Ok(inputs) => exists|handled: Result<H::Output, E>| #[trigger]
                    self.handler().handles(inputs.0, inputs.1, handled) && finishes(handled, result),
                Err(error) => result == Err::<Value, RpcError<E>>(error),
            }
    }

    fn call(&self, rpc_resources: B, params: Option<Value>) -> (result: Result<Value, RpcError<E>>) {
        let prepared = prepare::<B, H::Resources, H::Params, E>(&rpc_resources, params);
        match prepared {
            Ok((resources, decoded)) => {
                let handled = self.handler.handle(resources, decoded);
                assert(self.handler().handles(resources, decoded, handled));
                finish(handled)
            },
            Err(error) => Err(error),
        }
    }
}

/// For a parameter type that has nothing for a call without payload, such a
/// call fails with [`RpcError::MissingParams`], and the handler does not
/// run. This holds where the bag can give the handler's resources: where it
/// cannot, the call has failed before the payload is looked at.
pub proof fn lemma_absent_payload_is_missing<B, E, H: RpcHandler<B, E>>(
    wrapper: RpcHandlerWrapper<H>,
    rpc_resources: B,
    result: Result<Value, RpcError<E>>,
)
    requires
        forall|params: H::Params| !H::Params::absent_gives(Some(params)),
        !H::Resources::extracts(&rpc_resources, None),
        wrapper.may_yield(rpc_resources, None, result),
    ensures
        result == Err::<Value, RpcError<E>>(RpcError::MissingParams),
{
}

/// For a parameter type whose value for a call without payload is
/// `default`, the handler of such a call runs on `default`, and the call
/// gives what comes of that. This holds where the bag can give the
/// handler's resources.
pub proof fn lemma_absent_payload_is_default<B, E, H: RpcHandler<B, E>>(
    wrapper: RpcHandlerWrapper<H>,
    default: H::Params,
    rpc_resources: B,
    result: Result<Value, RpcError<E>>,
)
    requires
        forall|absent: Option<H::Params>| #[trigger]
            H::Params::absent_gives(absent) ==> absent == Some(default),
        !H::Resources::extracts(&rpc_resources, None),
        wrapper.may_yield(rpc_resources, None, result),
    ensures
        exists|resources: H::Resources, handled: Result<H::Output, E>|
            H::Resources::extracts(&rpc_resources, Some(resources)) && #[trigger]
            wrapper.handler().handles(resources, default, handled) && finishes(handled, result),
{
}

/// A payload that does not convert into the parameter type ends the call
/// with [`RpcError::ParamsParsingError`] and the cause; one that converts
/// reaches the handler as the value it converted into. This holds where the
/// bag can give the handler's resources.
pub proof fn lemma_payload_reaches_handler_converted<B, E, H: RpcHandler<B, E>>(
    wrapper: RpcHandlerWrapper<H>,
    payload: Value,
    converted: Result<H::Params, serde_json::Error>,
    rpc_resources: B,
    result: Result<Value, RpcError<E>>,
)
    requires
        forall|outcome: Result<H::Params, serde_json::Error>| #[trigger]
            H::Params::converts(json_view(payload), outcome) ==> outcome == converted,
        !H::Resources::extracts(&rpc_resources, None),
        wrapper.may_yield(rpc_resources, Some(payload), result),
    ensures
        match converted {
            Ok(params) => exists|resources: H::Resources, handled: Result<H::Output, E>|
                H::Resources::extracts(&rpc_resources, Some(resources)) && #[trigger]
                wrapper.handler().handles(resources, params, handled) && finishes(handled, result),
            Err(cause) => result == Err::<Value, RpcError<E>>(RpcError::ParamsParsingError(cause)),
        },
{
}

/// A call whose resources cannot be had fails with
/// [`RpcError::ResourceExtractionError`] whatever the payload is, and the
/// handler does not run.
pub proof fn lemma_missing_resource_ends_call<B, E, H: RpcHandler<B, E>>(
    wrapper: RpcHandlerWrapper<H>,
    params: Option<Value>,
    rpc_resources: B,
    result: Result<Value, RpcError<E>>,
)
    requires
        forall|resources: H::Resources| !H::Resources::extracts(&rpc_resources, Some(resources)),
        wrapper.may_yield(rpc_resources, params, result),
    ensures
        result == Err::<Value, RpcError<E>>(RpcError::ResourceExtractionError),
{
}

/// A handler's error is the call's error, inside [`RpcError::Handler`] and
/// unchanged; nothing is made of it on the way.
pub proof fn lemma_handler_error_is_kept<R: IntoValue, E>(error: E, result: Result<Value, RpcError<E>>)
    requires
        finishes(Err::<R, E>(error), result),
    ensures
        result == Err::<Value, RpcError<E>>(RpcError::Handler(error)),
{
}

} // verus!
