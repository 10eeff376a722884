//! The shape of a handler.

use crate::from_resources::FromResources;
use crate::into_params::IntoParams;
use crate::into_value::IntoValue;
use crate::rpc_handler_wrapper::RpcHandlerWrapper;
use vstd::prelude::*;

verus! {

/// The concrete function behind one method.
///
/// Its input is a tuple of resources taken from a bag `B` and one decoded
/// parameter value; its output is a typed result or an error `E` of its own
/// domain. What it does with them is its own business.
pub trait RpcHandler<B, E>: Sized {
    /// The resources that the handler declares, in their order.
    type Resources: FromResources<B>;

    /// The type that the payload is decoded into.
    type Params: IntoParams;

    /// The type of a successful result.
    type Output: IntoValue;

    /// Whether `outcome` is what the handler may give on these inputs. An
    /// implementation that states nothing leaves every outcome open.
    open spec fn handles(
        &self,
        resources: Self::Resources,
        params: Self::Params,
        outcome: Result<Self::Output, E>,
    ) -> bool {
        true
    }

    /// Runs the handler to its end.
    fn handle(&self, resources: Self::Resources, params: Self::Params) -> (outcome: Result<
        Self::Output,
        E,
    >)
        ensures
            self.handles(resources, params, outcome),
    ;

    /// Wraps the handler for a router, on the heap.
    fn into_box(self) -> (boxed: Box<RpcHandlerWrapper<Self>>)
        ensures
            boxed.handler() == self,
    {
        Box::new(RpcHandlerWrapper::new(self))
    }
}

} // verus!
