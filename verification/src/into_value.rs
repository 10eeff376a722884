//! Turning a handler's result into an untyped value.

use serde_json::Value;
use vstd::prelude::*;

verus! {

/// A handler's result, which can be turned into an untyped value.
pub trait IntoValue: Sized {
    /// Whether `outcome` is what turning `self` into a value may give. An
    /// implementation that states nothing leaves every outcome open.
    open spec fn serializes(self, outcome: Result<Value, serde_json::Error>) -> bool {
        true
    }

    /// Turns the result into a value, or says why it cannot be one.
    fn into_value(self) -> (outcome: Result<Value, serde_json::Error>)
        ensures
            self.serializes(outcome),
    ;
}

/// A handler that builds the untyped value itself hands it on as it is.
impl IntoValue for Value {
    open spec fn serializes(self, outcome: Result<Value, serde_json::Error>) -> bool {
        outcome == Ok::<Value, serde_json::Error>(self)
    }

    fn into_value(self) -> (outcome: Result<Value, serde_json::Error>) {
        Ok(self)
    }
}

} // verus!
