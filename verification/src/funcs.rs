//! Convenience entry point for one whole emission.

use vstd::prelude::*;

use crate::error::CoronaError;
use crate::ser::{render, Uneval};
use crate::sink::{Sink, StringSink};
use crate::value::Value;

verus! {

/// Obtains the generated source text for one value as a string.
///
/// An in-memory sink never rejects a write, so the emission always succeeds;
/// the signature keeps the `Result` shape every emission entry point shares.
pub fn to_string(value: &Value) -> (r: Result<String, CoronaError>)
    ensures
        r is Ok,
        r matches Ok(s) ==> s@ == render(*value),
{
    let mut ser = Uneval::new(StringSink::new());
    match ser.serialize_value(value) {
        Ok(()) => {},
        Err(e) => {
            return Err(e);
        },
    }
    proof {
        assert(Seq::<char>::empty() + render(*value) =~= render(*value));
    }
    Ok(ser.into_sink().into_string())
}

} // verus!
