//! The uniform error shape of the control layer.

use vstd::prelude::*;

verus! {

/// Every failure the control layer can report to a caller.
#[derive(Debug, Clone, PartialEq, Eq)]
pub enum ControlError {
    /// No engine instance exists; permanent, nothing was attempted.
    Unavailable,
    /// The caller's input was invalid; the engine was never consulted.
    BadRequest(String),
    /// A low-level engine call was rejected; carries the engine's own message.
    EngineFailure(String),
    /// A requested playback start could not be confirmed: the engine reported
    /// an end of file, or the confirmation window elapsed without a loaded file.
    PlaybackFailed,
}

/// Rejects a request as invalid caller input, with the reason.
pub fn bad_request<T>(message: String) -> (r: Result<T, ControlError>)
    ensures
        r matches Err(e) && e == ControlError::BadRequest(message),
{
    Err(ControlError::BadRequest(message))
}

} // verus!
