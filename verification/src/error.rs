//! Error returned by the serializer.

use vstd::prelude::*;

verus! {

/// Failure of one emission run.  Every failure aborts the remaining traversal
/// immediately: output written before the failure must be discarded.
#[derive(Debug)]
pub enum CoronaError {
    /// The sink rejected a write; the payload describes the rejection.
    Io(String),
    /// Collected bytes were not valid UTF-8 when decoded back into text.
    Utf8(String),
    /// The value being serialized reported itself unrepresentable.
    Custom(String),
}

impl CoronaError {
    /// Wraps an arbitrary message, as a serializer reports a value-side error.
    pub fn custom(msg: String) -> (e: CoronaError)
        ensures
            e == CoronaError::Custom(msg),
    {
        CoronaError::Custom(msg)
    }
}

} // verus!
