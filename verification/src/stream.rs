//! The status stream's per-iteration decision.
//!
//! The stream itself is a long-lived poll loop in the surrounding process:
//! for the lifetime of one subscription it acquires the engine lock, polls
//! the event channel once with a near-zero timeout, releases the lock, and
//! acts on the decision made here. Checking for cancellation at every
//! iteration boundary — never inside a held lock — is what lets a
//! subscriber disconnect within one poll interval without starving the
//! command callers.

use vstd::prelude::*;

use crate::engine::EngineEvent;

verus! {

/// What one iteration of the status stream does next.
#[derive(Debug, Clone, Copy, PartialEq, Eq, Structural)]
pub enum StreamStep {
    /// The subscriber is gone: stop polling; the loop ends here.
    Stop,
    /// Republish this event to the subscriber, then poll again.
    Emit(EngineEvent),
    /// The poll was quiet: just poll again.
    Idle,
}

/// Decides one iteration of the status stream from the cancellation flag,
/// read at the iteration boundary, and what the poll yielded. A cancelled
/// subscription stops at once, whatever was polled; otherwise an observed
/// event is republished verbatim and a quiet poll idles on.
pub fn stream_step(cancelled: bool, polled: Option<EngineEvent>) -> (s: StreamStep)
    ensures
        cancelled ==> s == StreamStep::Stop,
        !cancelled ==> (polled matches Some(event) ==> s == StreamStep::Emit(event)),
        !cancelled && polled is None ==> s == StreamStep::Idle,
{
    if cancelled {
        StreamStep::Stop
    } else {
        match polled {
            Some(event) => StreamStep::Emit(event),
            None => StreamStep::Idle,
        }
    }
}

} // verus!
