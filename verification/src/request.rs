//! A call as the transport hands it over.

use serde_json::Value;
use vstd::prelude::*;

verus! {

/// A call as it arrives: the method to call, its payload if it has one, and
/// the caller's identifier for the call, which the dispatch core hands back
/// and never reads.
pub struct RpcRequest {
    pub id: Option<Value>,
    pub method: String,
    pub params: Option<Value>,
}

/// What identifies a call after its payload has gone to the handler: the
/// caller's identifier and the method.
#[derive(Debug, Clone)]
pub struct RpcInfo {
    pub id: Option<Value>,
    pub method: String,
}

impl RpcRequest {
    /// Parts the request into what identifies the call and the payload.
    pub fn into_parts(self) -> (parts: (RpcInfo, Option<Value>))
        ensures
            parts.0.id == self.id,
            parts.0.method == self.method,
            parts.1 == self.params,
    {
        (RpcInfo { id: self.id, method: self.method }, self.params)
    }
}

} // verus!
