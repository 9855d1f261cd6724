//! The command surface: one intent per operation a caller can issue, and
//! the decision that turns each intent into its first engine action.
//!
//! Simple intents map to a single engine operation whose own result is the
//! answer. Volume is validated here — a level outside `[0, 100]` is
//! rejected before anything reaches the engine. The queue and play intents
//! open multi-step flows whose decisions live in the queue and sequencer
//! modules.

use vstd::prelude::*;

use crate::engine::{EngineOp, PropertyValue};
use crate::errors::ControlError;
use crate::queue::QueueState;

verus! {

/// A caller's high-level request, constructed per incoming request and
/// consumed once.
#[derive(Debug, Clone, PartialEq, Eq)]
pub enum PlaybackIntent {
    /// Ensure playback is active (the play sequencer decides how).
    Play,
    /// Suspend playback.
    Pause,
    /// Advance to the next playlist entry.
    Next,
    /// Step back to the previous playlist entry.
    Previous,
    /// Stop playback and unload the file.
    Stop,
    /// Seek relative to the current position.
    Seek { offset_millis: i64 },
    /// Seek to an absolute position.
    SeekAbsolute { position_millis: i64 },
    /// Set a named engine property.
    SetProperty { key: String, value: PropertyValue },
    /// Set the volume; only levels in `[0, 100]` are valid.
    SetVolume { level: i32 },
    /// Realize a desired queue shape.
    SetQueue { queue: QueueState },
    /// Replace the on-deck track.
    SetQueueNext { next: Option<String> },
    /// Auto-advance after the current track ended naturally.
    AutoNext { next: Option<String> },
}

/// Where an intent goes first: straight to one engine operation, into one
/// of the multi-step flows, or nowhere because the input was invalid.
#[derive(Debug, PartialEq, Eq)]
pub enum IntentStep {
    /// Issue this one operation; its result is the request's answer.
    Issue(EngineOp),
    /// Run the play sequencer.
    RunPlaySequence,
    /// Run the set-queue flow on this shape.
    RunSetQueue(QueueState),
    /// Run the replace-on-deck flow with this track.
    RunSetQueueNext(Option<String>),
    /// Run the auto-advance flow with this follow-up track.
    RunAutoNext(Option<String>),
    /// The input was invalid; the engine is never consulted.
    Rejected(ControlError),
}

/// An intent's volume level is in range unless the intent is a `SetVolume`
/// whose level falls outside `[0, 100]`.
pub open spec fn intent_volume_in_range(intent: PlaybackIntent) -> bool {
    intent matches PlaybackIntent::SetVolume { level } ==> 0 <= level <= 100
}

/// Decides the first step of every intent. Simple intents become their one
/// engine operation; a valid volume becomes a set of the engine's volume
/// property; a volume outside `[0, 100]` is the only input rejected here,
/// and is rejected before any engine operation exists at all; the queue
/// and play intents open their flows.
pub fn first_step(intent: PlaybackIntent) -> (s: IntentStep)
    ensures
        s is Rejected <==> !intent_volume_in_range(intent),
        s matches IntentStep::Rejected(e) ==> e is BadRequest,
        intent is Play ==> s == IntentStep::RunPlaySequence,
        intent is Pause ==> s == IntentStep::Issue(EngineOp::Pause),
        intent is Next ==> s == IntentStep::Issue(EngineOp::PlaylistNext),
        intent is Previous ==> s == IntentStep::Issue(EngineOp::PlaylistPrevious),
        intent is Stop ==> s == IntentStep::Issue(EngineOp::Stop),
        intent matches PlaybackIntent::Seek { offset_millis } ==> s == IntentStep::Issue(
            EngineOp::SeekBy { offset_millis },
        ),
        intent matches PlaybackIntent::SeekAbsolute { position_millis } ==> s == IntentStep::Issue(
            EngineOp::SeekTo { position_millis },
        ),
        intent matches PlaybackIntent::SetProperty { key, value } ==> s == IntentStep::Issue(
            EngineOp::SetProperty { key, value },
        ),
        intent matches PlaybackIntent::SetVolume { level } ==> (0 <= level <= 100 ==> (s matches
            IntentStep::Issue(op) && op matches EngineOp::SetProperty { key, value } && key@
            == "volume"@ && value == PropertyValue::Int(level as i64))),
        intent matches PlaybackIntent::SetQueue { queue } ==> s == IntentStep::RunSetQueue(queue),
        intent matches PlaybackIntent::SetQueueNext { next } ==> s == IntentStep::RunSetQueueNext(
            next,
        ),
        intent matches PlaybackIntent::AutoNext { next } ==> s == IntentStep::RunAutoNext(next),
{
    match intent {
        PlaybackIntent::Play => IntentStep::RunPlaySequence,
        PlaybackIntent::Pause => IntentStep::Issue(EngineOp::Pause),
        PlaybackIntent::Next => IntentStep::Issue(EngineOp::PlaylistNext),
        PlaybackIntent::Previous => IntentStep::Issue(EngineOp::PlaylistPrevious),
        PlaybackIntent::Stop => IntentStep::Issue(EngineOp::Stop),
        PlaybackIntent::Seek { offset_millis } => IntentStep::Issue(
            EngineOp::SeekBy { offset_millis },
        ),
        PlaybackIntent::SeekAbsolute { position_millis } => IntentStep::Issue(
            EngineOp::SeekTo { position_millis },
        ),
        PlaybackIntent::SetProperty { key, value } => IntentStep::Issue(
            EngineOp::SetProperty { key, value },
        ),
        PlaybackIntent::SetVolume { level } => {
            if 0 <= level && level <= 100 {
                IntentStep::Issue(
                    EngineOp::SetProperty {
                        key: String::from_str("volume"),
                        value: PropertyValue::Int(level as i64),
                    },
                )
            } else {
                IntentStep::Rejected(
                    ControlError::BadRequest(
                        String::from_str("volume must be in the range [0, 100]"),
                    ),
                )
            }
        },
        PlaybackIntent::SetQueue { queue } => IntentStep::RunSetQueue(queue),
        PlaybackIntent::SetQueueNext { next } => IntentStep::RunSetQueueNext(next),
        PlaybackIntent::AutoNext { next } => IntentStep::RunAutoNext(next),
    }
}

/// The operations that ready a fresh engine for this control layer: keep
/// the engine alive when idle, and disable video and album-art display.
pub fn initialize_plan() -> (ops: Vec<EngineOp>)
    ensures
        ops@.len() == 3,
        ops@[0] matches EngineOp::SetProperty { key, value } && key@ == "idle"@ && value
            == PropertyValue::Flag(true),
        ops@[1] matches EngineOp::SetProperty { key, value } && key@ == "video"@ && value
            == PropertyValue::Flag(false),
        ops@[2] matches EngineOp::SetProperty { key, value } && key@ == "audio-display"@ && value
            == PropertyValue::Flag(false),
{
    let mut ops: Vec<EngineOp> = Vec::new();
    ops.push(
        EngineOp::SetProperty { key: String::from_str("idle"), value: PropertyValue::Flag(true) },
    );
    ops.push(
        EngineOp::SetProperty { key: String::from_str("video"), value: PropertyValue::Flag(false) },
    );
    ops.push(
        EngineOp::SetProperty {
            key: String::from_str("audio-display"),
            value: PropertyValue::Flag(false),
        },
    );
    ops
}

/// Turns a batch of property assignments into one set-property operation
/// each, in order. An empty batch yields no operations, and the caller is
/// answered with success without the engine ever being consulted.
pub fn set_properties_plan(properties: &Vec<(String, String)>) -> (ops: Vec<EngineOp>)
    ensures
        ops@.len() == properties@.len(),
        forall|i: int|
            0 <= i < properties@.len() ==> ((#[trigger] ops@[i]) matches EngineOp::SetProperty {
                key,
                value,
            } && key == properties@[i].0 && value == PropertyValue::Text(properties@[i].1)),
{
    let mut ops: Vec<EngineOp> = Vec::new();
    let mut i: usize = 0;
    while i < properties.len()
        invariant
            i <= properties@.len(),
            ops@.len() == i,
            forall|j: int|
                0 <= j < i ==> ((#[trigger] ops@[j]) matches EngineOp::SetProperty { key, value }
                    && key == properties@[j].0 && value == PropertyValue::Text(properties@[j].1)),
        decreases properties@.len() - i,
    {
        let pair = &properties[i];
        ops.push(
            EngineOp::SetProperty {
                key: pair.0.clone(),
                value: PropertyValue::Text(pair.1.clone()),
            },
        );
        i = i + 1;
    }
    ops
}

} // verus!
