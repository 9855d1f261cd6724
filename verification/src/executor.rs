//! The command executor's decisions: whether an operation may approach the
//! engine at all, and how the outcome of an engine call is reported.
//!
//! The executor itself runs in the surrounding process: it holds the single
//! engine lock for exactly one logical operation and releases it on every
//! exit path. What it decides — refusing callers when no engine exists, and
//! folding every engine-layer failure into one uniform shape — is computed
//! here.

use vstd::prelude::*;

use crate::errors::ControlError;

verus! {

/// Guards entry to the engine: with no engine instance present every
/// operation fails at once with `Unavailable`, before any lock attempt.
pub fn engine_gate(engine_present: bool) -> (r: Result<(), ControlError>)
    ensures
        engine_present <==> r is Ok,
        !engine_present ==> r == Err::<(), ControlError>(ControlError::Unavailable),
{
    if engine_present {
        Ok(())
    } else {
        Err(ControlError::Unavailable)
    }
}

/// Translates the outcome of one engine call into the uniform error shape:
/// a success passes through unchanged, an engine-layer failure message
/// becomes `EngineFailure` carrying that message.
pub fn translate_engine_result<T>(r: Result<T, String>) -> (out: Result<T, ControlError>)
    ensures
        r matches Ok(v) ==> out matches Ok(w) && w == v,
        r matches Err(m) ==> out matches Err(e) && e == ControlError::EngineFailure(m),
{
    match r {
        Ok(v) => Ok(v),
        Err(m) => Err(ControlError::EngineFailure(m)),
    }
}

} // verus!
