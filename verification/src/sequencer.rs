//! The play sequencer: resolving the verb "play" into the correct engine
//! action, and judging from the engine's events whether a requested start
//! actually happened.
//!
//! An engine that already has a file (paused or playing) only needs an
//! unpause, confirmed synchronously by the call's own result. An idle
//! engine with a non-empty playlist needs an explicit play command, and
//! that transition is asynchronous: the sequencer polls the event channel,
//! a bounded number of times with a short timeout each, until a
//! `FileLoaded` that follows a `StartFile` confirms the start, an
//! `EndFile` refutes it, or the budget runs out. An idle engine with an
//! empty playlist has nothing to play and the request succeeds as a no-op.

use vstd::prelude::*;

use crate::engine::EngineEvent;
use crate::errors::ControlError;

verus! {

/// How many polls of the event channel one confirmation may spend. Each
/// poll waits a few tens of milliseconds, so the whole window is on the
/// order of a second.
pub const CONFIRM_POLL_BUDGET: usize = 100;

/// The engine action that realizes a "play" request.
#[derive(Debug, Clone, Copy, PartialEq, Eq, Structural)]
pub enum PlayAction {
    /// A file is active: unpause, and let the call's own result stand —
    /// the event channel is never consulted.
    Unpause,
    /// Idle with a non-empty playlist: issue the play command, then run
    /// the confirmation poll.
    StartFromPlaylist,
    /// Idle with an empty playlist: nothing to play, succeed as a no-op.
    NothingToPlay,
}

/// Resolves "play" against the engine state just read: `idle` is whether
/// no file is active, `playlist_len` the number of playlist entries.
pub fn play_action(idle: bool, playlist_len: i64) -> (a: PlayAction)
    ensures
        !idle ==> a == PlayAction::Unpause,
        idle && playlist_len > 0 ==> a == PlayAction::StartFromPlaylist,
        idle && playlist_len <= 0 ==> a == PlayAction::NothingToPlay,
{
    if !idle {
        PlayAction::Unpause
    } else if playlist_len > 0 {
        PlayAction::StartFromPlaylist
    } else {
        PlayAction::NothingToPlay
    }
}

/// What one poll of the event channel yielded.
#[derive(Debug, Clone, PartialEq, Eq)]
pub enum PollOutcome {
    /// The timeout elapsed with no event.
    Quiet,
    /// The channel itself failed, with the engine's message.
    Fault(String),
    /// The engine emitted this event.
    Observed(EngineEvent),
}

/// The confirmation poll's running state: whether a `StartFile` has been
/// seen, and how many polls are spent.
#[derive(Debug, Clone, Copy, PartialEq, Eq, Structural)]
pub struct ConfirmState {
    pub started: bool,
    pub polls_done: usize,
}

/// One step of the confirmation poll: either the question is settled, or
/// polling continues in this state.
#[derive(Debug, PartialEq, Eq)]
pub enum ConfirmStep {
    Pending(ConfirmState),
    Settled(Result<(), ControlError>),
}

/// The state a confirmation poll begins in: nothing seen, nothing spent.
pub fn confirm_init() -> (s: ConfirmState)
    ensures
        s == (ConfirmState { started: false, polls_done: 0 }),
{
    ConfirmState { started: false, polls_done: 0 }
}

/// Spending one more poll: the budget exhausted without confirmation is a
/// playback failure, otherwise polling continues with the count advanced.
pub open spec fn spec_confirm_advance(state: ConfirmState) -> ConfirmStep {
    if state.polls_done + 1 >= CONFIRM_POLL_BUDGET {
        ConfirmStep::Settled(Err(ControlError::PlaybackFailed))
    } else {
        ConfirmStep::Pending(
            ConfirmState { started: state.started, polls_done: (state.polls_done + 1) as usize },
        )
    }
}

/// How one poll outcome moves the confirmation along: a channel fault is
/// an engine failure with its message; an `EndFile` at any point means
/// playback failed to establish; a `FileLoaded` after a `StartFile` is the
/// confirmation of success; a `StartFile` is remembered; anything else —
/// other events, or a quiet poll — spends the poll and continues.
pub open spec fn spec_confirm_step(state: ConfirmState, outcome: PollOutcome) -> ConfirmStep {
    match outcome {
        PollOutcome::Quiet => spec_confirm_advance(state),
        PollOutcome::Fault(m) => ConfirmStep::Settled(Err(ControlError::EngineFailure(m))),
        PollOutcome::Observed(event) => match event {
            EngineEvent::EndFile(..) => ConfirmStep::Settled(Err(ControlError::PlaybackFailed)),
            EngineEvent::FileLoaded => if state.started {
                ConfirmStep::Settled(Ok(()))
            } else {
                spec_confirm_advance(state)
            },
            EngineEvent::StartFile => spec_confirm_advance(
                ConfirmState { started: true, polls_done: state.polls_done },
            ),
            EngineEvent::Other => spec_confirm_advance(state),
        },
    }
}

/// One step of the confirmation poll, deciding on the outcome the event
/// channel just yielded.
pub fn confirm_step(state: &ConfirmState, outcome: &PollOutcome) -> (step: ConfirmStep)
    requires
        state.polls_done < CONFIRM_POLL_BUDGET,
    ensures
        step == spec_confirm_step(*state, *outcome),
        step matches ConfirmStep::Pending(s) ==> s.polls_done < CONFIRM_POLL_BUDGET,
{
    match outcome {
        PollOutcome::Quiet => confirm_advance(state),
        PollOutcome::Fault(m) => ConfirmStep::Settled(
            Err(ControlError::EngineFailure(m.clone())),
        ),
        PollOutcome::Observed(event) => match event {
            EngineEvent::EndFile(_) => ConfirmStep::Settled(Err(ControlError::PlaybackFailed)),
            EngineEvent::FileLoaded => if state.started {
                ConfirmStep::Settled(Ok(()))
            } else {
                confirm_advance(state)
            },
            EngineEvent::StartFile => confirm_advance(
                &ConfirmState { started: true, polls_done: state.polls_done },
            ),
            EngineEvent::Other => confirm_advance(state),
        },
    }
}

/// Spends one poll of the budget.
fn confirm_advance(state: &ConfirmState) -> (step: ConfirmStep)
    requires
        state.polls_done < CONFIRM_POLL_BUDGET,
    ensures
        step == spec_confirm_advance(*state),
        step matches ConfirmStep::Pending(s) ==> s.polls_done < CONFIRM_POLL_BUDGET,
{
    if state.polls_done + 1 >= CONFIRM_POLL_BUDGET {
        ConfirmStep::Settled(Err(ControlError::PlaybackFailed))
    } else {
        ConfirmStep::Pending(
            ConfirmState { started: state.started, polls_done: state.polls_done + 1 },
        )
    }
}

/// The verdict of a whole confirmation poll that observes `outcomes` in
/// order from poll number `polls_done` on, every poll past the end of
/// `outcomes` being quiet, in the state where a `StartFile` has been seen
/// iff `started`.
pub open spec fn spec_confirm_run(
    outcomes: Seq<PollOutcome>,
    started: bool,
    polls_done: int,
) -> Result<(), ControlError>
    decreases CONFIRM_POLL_BUDGET - polls_done,
{
    if polls_done < 0 || polls_done >= CONFIRM_POLL_BUDGET {
        Err(ControlError::PlaybackFailed)
    } else {
        let state = ConfirmState { started, polls_done: polls_done as usize };
        let outcome = if polls_done < outcomes.len() {
            outcomes[polls_done]
        } else {
            PollOutcome::Quiet
        };
        match spec_confirm_step(state, outcome) {
            ConfirmStep::Settled(r) => r,
            ConfirmStep::Pending(s) => spec_confirm_run(outcomes, s.started, s.polls_done as int),
        }
    }
}

/// The verdict of a confirmation poll that observes `outcomes` from the
/// start: success exactly when a `FileLoaded` preceded by a `StartFile`
/// arrives before any `EndFile`, any fault, and the end of the budget.
pub open spec fn spec_confirm_verdict(outcomes: Seq<PollOutcome>) -> Result<(), ControlError> {
    spec_confirm_run(outcomes, false, 0)
}

/// Runs the whole confirmation poll over the outcomes the event channel
/// yields in order; polls past the end of `outcomes` are quiet. This is
/// the loop the sequencer runs once the play command is issued: it stops
/// the moment the question is settled, and spends at most the budget.
pub fn confirm_playback(outcomes: &Vec<PollOutcome>) -> (r: Result<(), ControlError>)
    ensures
        r == spec_confirm_verdict(outcomes@),
{
    let mut state = confirm_init();
    loop
        invariant
            state.polls_done < CONFIRM_POLL_BUDGET,
            spec_confirm_run(outcomes@, state.started, state.polls_done as int)
                == spec_confirm_verdict(outcomes@),
        decreases CONFIRM_POLL_BUDGET - state.polls_done,
    {
        let quiet = PollOutcome::Quiet;
        let outcome = if state.polls_done < outcomes.len() {
            &outcomes[state.polls_done]
        } else {
            &quiet
        };
        match confirm_step(&state, outcome) {
            ConfirmStep::Settled(r) => {
                return r;
            },
            ConfirmStep::Pending(s) => {
                state = s;
            },
        }
    }
}

} // verus!
