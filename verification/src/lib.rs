//! A method-dispatch core for JSON-RPC style calls.
//!
//! A caller holds a resource bag and a method name with an optional untyped
//! payload. The [`RpcRouter`] finds the route registered under that name; the
//! route, a [`RpcHandlerWrapper`] around a concrete [`RpcHandler`], takes the
//! handler's resources out of the bag ([`FromResources`]), decodes the
//! payload into the handler's parameter type ([`IntoParams`]), runs the
//! handler and turns its result back into an untyped value ([`IntoValue`]).
//! Every step that can fail ends the call with its own [`RpcError`].
//!
//! A handler of this crate runs to its end when it is called. A service whose
//! handlers wait for other work takes the two halves of a call by themselves,
//! [`prepare`] before the handler and [`finish`] after it, and finds the
//! route with [`RpcRouter::route`].
//!
//! What the traits promise is stated as relations between inputs and
//! outcomes, one per method. An implementation that is not verified states
//! none, and nothing is then claimed of it; what is proved here of routers
//! and wrappers holds for whatever the implementations state.
//!
//! The transport that receives a request and sends the response is not part
//! of this crate.

pub mod error;
pub mod from_resources;
pub mod into_params;
pub mod into_value;
pub mod json;
pub mod params;
pub mod request;
pub mod router;
pub mod rpc_handler;
pub mod rpc_handler_wrapper;

pub use error::RpcError;
pub use from_resources::FromResources;
pub use into_params::{
    close, decode, optional_element, optional_member, present_member, require, required_element,
    required_member, shape, FromValue, IntoParams, Shape,
};
pub use into_value::IntoValue;
pub use params::{ParamsForCreate, ParamsForUpdate, ParamsIded, ParamsList};
pub use request::{RpcInfo, RpcRequest};
pub use router::RpcRouter;
pub use rpc_handler::RpcHandler;
pub use rpc_handler_wrapper::{finish, prepare, RpcHandlerWrapper, RpcHandlerWrapperTrait};
