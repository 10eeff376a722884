//! The errors of a call.

use vstd::prelude::*;

verus! {

/// Why a call did not give a value.
///
/// `E` is the error type of the handlers' own domain. The dispatch core
/// never looks into it and hands it on as it came.
#[derive(Debug)]
pub enum RpcError<E> {
    /// No route is registered under the method name that was asked for.
    MethodUnknown(String),
    /// The parameter type needs a payload and the call brought none.
    MissingParams,
    /// The payload does not have the shape of the parameter type.
    ParamsParsingError(serde_json::Error),
    /// A resource that the handler declares could not be taken from the bag.
    ResourceExtractionError,
    /// The handler ran and failed.
    Handler(E),
    /// The handler succeeded and its result could not be turned into a value.
    SerializationError(serde_json::Error),
}

} // verus!
