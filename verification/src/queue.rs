//! The queue manager: turning a desired `{current, next, pause}` queue
//! shape into playlist operations, replacing the on-deck entry, and the
//! auto-advance step when the current track ends.
//!
//! Each request is decided in two halves, because the engine answers
//! asynchronously: a plan computed before the engine is touched, and a
//! follow-up decision computed from the outcome of the engine call. The
//! surrounding process performs the calls between the two.

use vstd::prelude::*;

use crate::engine::{ops_playlist_effect, remove_effect, EngineOp, LoadEntry, LoadMode};
use crate::errors::ControlError;

verus! {

/// A desired queue shape: the track to play now, the track to keep on
/// deck, and whether playback should end up paused (`None` leaves the
/// playback state alone). A `next` without a `current` is invalid.
#[derive(Debug, Clone, PartialEq, Eq)]
pub struct QueueState {
    pub current: Option<String>,
    pub next: Option<String>,
    pub pause: Option<bool>,
}

/// A valid queue shape never names an on-deck track without a now-playing one.
pub open spec fn queue_state_valid(q: QueueState) -> bool {
    q.next is Some ==> q.current is Some
}

/// What realizing a queue shape asks of the engine: either drop everything
/// and pause, or issue one load call with these entries.
#[derive(Debug, Clone, PartialEq, Eq)]
pub enum SetQueuePlan {
    /// No tracks were named: clear the whole playlist and pause. No load
    /// call is ever part of this plan.
    ClearAndPause,
    /// Load these entries in one call: the new now-playing track with
    /// replace semantics, then, if named, the on-deck track appended.
    Load(Vec<LoadEntry>),
}

/// Decides how a desired queue shape is realized. A shape with `next` but
/// no `current` is rejected as invalid input and nothing reaches the
/// engine; an empty shape becomes a clear-and-pause; any other shape
/// becomes a single load call, `current` first with replace semantics,
/// then `next`, if present, appended.
pub fn set_queue_plan(queue: &QueueState) -> (r: Result<SetQueuePlan, ControlError>)
    ensures
        r is Err <==> !queue_state_valid(*queue),
        r matches Err(e) ==> e is BadRequest,
        queue.current is None && queue.next is None ==> r == Ok::<SetQueuePlan, ControlError>(
            SetQueuePlan::ClearAndPause,
        ),
        queue.current matches Some(c) ==> r matches Ok(p) && p matches SetQueuePlan::Load(entries)
            && entries@.len() == (if queue.next is Some { 2int } else { 1int })
            && entries@[0].path@ == c@
            && entries@[0].mode == LoadMode::Replace
            && (queue.next matches Some(n) ==> entries@[1].path@ == n@
                && entries@[1].mode == LoadMode::Append),
{
    match (&queue.current, &queue.next) {
        (None, Some(_)) => Err(ControlError::BadRequest(
            String::from_str("an on-deck track needs a now-playing track"),
        )),
        (None, None) => Ok(SetQueuePlan::ClearAndPause),
        (Some(c), next) => {
            let mut entries: Vec<LoadEntry> = Vec::new();
            entries.push(LoadEntry { path: c.clone(), mode: LoadMode::Replace });
            if let Some(n) = next {
                entries.push(LoadEntry { path: n.clone(), mode: LoadMode::Append });
            }
            Ok(SetQueuePlan::Load(entries))
        },
    }
}

/// The ordered engine operations of a queue plan: a clear-and-pause is
/// exactly a playlist clear followed by a pause — no load call among them —
/// and a load plan is exactly one load call carrying its entries.
pub fn set_queue_ops(plan: SetQueuePlan) -> (ops: Vec<EngineOp>)
    ensures
        plan is ClearAndPause ==> ops@ == seq![EngineOp::ClearPlaylist, EngineOp::Pause],
        plan matches SetQueuePlan::Load(entries) ==> ops@ == seq![
            EngineOp::LoadFiles { entries },
        ],
        forall|i: int|
            0 <= i < ops@.len() && plan is ClearAndPause ==> !((#[trigger] ops@[i]) is LoadFiles),
{
    match plan {
        SetQueuePlan::ClearAndPause => {
            let mut ops: Vec<EngineOp> = Vec::new();
            ops.push(EngineOp::ClearPlaylist);
            ops.push(EngineOp::Pause);
            assert(ops@ =~= seq![EngineOp::ClearPlaylist, EngineOp::Pause]);
            ops
        },
        SetQueuePlan::Load(entries) => {
            let mut ops: Vec<EngineOp> = Vec::new();
            ops.push(EngineOp::LoadFiles { entries });
            assert(ops@ =~= seq![ops@[0]]);
            ops
        },
    }
}

/// Realizing an empty queue shape clears the playlist, whatever it held,
/// and pauses — and never loads: the operations required here are exactly
/// the ones `set_queue_ops` gives a clear-and-pause plan, they leave any
/// playlist empty, and no load call is among them.
pub proof fn lemma_set_queue_empty_clears(playlist: Seq<Seq<char>>, ops: Seq<EngineOp>)
    requires
        ops == seq![EngineOp::ClearPlaylist, EngineOp::Pause],
    ensures
        ops_playlist_effect(playlist, ops) == Seq::<Seq<char>>::empty(),
        forall|i: int| 0 <= i < ops.len() ==> !((#[trigger] ops[i]) is LoadFiles),
{
    let cleared = Seq::<Seq<char>>::empty();
    assert(ops_playlist_effect(playlist, ops) == ops_playlist_effect(cleared, ops.skip(1)));
    assert(ops.skip(1) =~= seq![EngineOp::Pause]);
    assert(ops_playlist_effect(cleared, ops.skip(1)) == ops_playlist_effect(
        cleared,
        ops.skip(1).skip(1),
    ));
    assert(ops.skip(1).skip(1) =~= Seq::<EngineOp>::empty());
}

/// What playback must do once a load plan's call has returned. `None`
/// leaves the playback state unchanged.
#[derive(Debug, Clone, Copy, PartialEq, Eq, Structural)]
pub enum PlaybackAdjust {
    /// Suspend playback.
    ForcePause,
    /// Hand control to the play sequencer to ensure playback is active.
    StartPlayback,
    /// Leave the playback state as it is.
    Leave,
}

/// The decisions that follow a load plan's engine call.
#[derive(Debug, Clone, Copy, PartialEq, Eq, Structural)]
pub struct SetQueueFollowUp {
    /// The load call failed, leaving the loaded state indeterminate: run
    /// the play sequencer first as best-effort recovery, surfacing its
    /// outcome instead of the swallowed load error.
    pub recover_play: bool,
    /// How the `pause` field of the request is applied afterwards.
    pub adjust: PlaybackAdjust,
}

/// Decides what follows the load call of a queue plan: a failed load is
/// answered by a best-effort play attempt (the load error itself is
/// swallowed), and the request's `pause` field then maps to a pause, a
/// play-sequencer run, or no change at all.
pub fn set_queue_follow_up(load_ok: bool, pause: Option<bool>) -> (f: SetQueueFollowUp)
    ensures
        f.recover_play == !load_ok,
        pause == Some(true) ==> f.adjust == PlaybackAdjust::ForcePause,
        pause == Some(false) ==> f.adjust == PlaybackAdjust::StartPlayback,
        pause is None ==> f.adjust == PlaybackAdjust::Leave,
{
    let adjust = match pause {
        Some(true) => PlaybackAdjust::ForcePause,
        Some(false) => PlaybackAdjust::StartPlayback,
        None => PlaybackAdjust::Leave,
    };
    SetQueueFollowUp { recover_play: !load_ok, adjust }
}

/// How the on-deck slot is replaced: whether slot 1 is removed first, and
/// what, if anything, is appended after.
#[derive(Debug, Clone, PartialEq, Eq)]
pub struct SetQueueNextPlan {
    pub remove_on_deck: bool,
    pub append: Option<LoadEntry>,
}

/// The playlist after a replace-on-deck plan runs: slot 1 goes if the plan
/// removes it, then the appended track, if any, joins the end.
pub open spec fn next_plan_effect(playlist: Seq<Seq<char>>, p: SetQueueNextPlan) -> Seq<
    Seq<char>,
> {
    let trimmed = if p.remove_on_deck {
        remove_effect(playlist, 1)
    } else {
        playlist
    };
    match p.append {
        Some(e) => trimmed.push(e.path@),
        None => trimmed,
    }
}

/// Decides how the on-deck entry is replaced, from the playlist length the
/// engine reported. An empty playlist gives a new `next` nothing to attach
/// to, so nothing happens at all; a playlist that already has an on-deck
/// entry loses it first — a new `next` replaces the old one, it does not
/// stack; the new track, if named, is then appended.
pub fn set_queue_next_plan(playlist_len: i64, next: &Option<String>) -> (p: SetQueueNextPlan)
    ensures
        p.remove_on_deck == (playlist_len > 1),
        playlist_len < 1 ==> p.append is None,
        next is None ==> p.append is None,
        playlist_len >= 1 ==> (next matches Some(n) ==> p.append matches Some(e) && e.path@ == n@
            && e.mode == LoadMode::Append),
{
    if playlist_len < 1 {
        SetQueueNextPlan { remove_on_deck: false, append: None }
    } else {
        let append = match next {
            Some(n) => Some(LoadEntry { path: n.clone(), mode: LoadMode::Append }),
            None => None,
        };
        SetQueueNextPlan { remove_on_deck: playlist_len > 1, append }
    }
}

/// Replacing the on-deck track with nothing, on a playlist that already
/// has one (length at least two), removes slot 1 and appends nothing: the
/// now-playing entry stays, every later entry moves down one slot, and the
/// playlist is exactly one entry shorter. The plan fields required here
/// are the ones `set_queue_next_plan` computes when no new track is named.
pub proof fn lemma_set_queue_next_none(playlist: Seq<Seq<char>>, p: SetQueueNextPlan)
    requires
        playlist.len() >= 2,
        p.remove_on_deck,
        p.append is None,
    ensures
        next_plan_effect(playlist, p) == playlist.remove(1),
        next_plan_effect(playlist, p).len() == playlist.len() - 1,
        next_plan_effect(playlist, p)[0] == playlist[0],
        forall|i: int|
            1 <= i < playlist.len() - 1 ==> next_plan_effect(playlist, p)[i] == playlist[i + 1],
{
}

/// The first step of auto-advance: the track that just finished sits in
/// slot 0 and is removed.
pub fn auto_next_first_op() -> (op: EngineOp)
    ensures
        op == (EngineOp::RemoveIndex { index: 0 }),
{
    EngineOp::RemoveIndex { index: 0 }
}

/// The decisions that follow auto-advance's removal of the finished track.
#[derive(Debug, Clone, PartialEq, Eq)]
pub struct AutoNextFollowUp {
    /// The removal failed: fall back to pausing rather than leaving an
    /// inconsistent state, and surface the removal error.
    pub pause_instead: bool,
    /// The follow-up track to enqueue as the new on-deck entry, if one was
    /// supplied and the removal succeeded.
    pub append: Option<LoadEntry>,
}

/// Decides what follows the auto-advance removal: a failed removal turns
/// into a pause (nothing is appended), a successful one is followed by
/// appending the supplied follow-up track, if any, as the new on-deck
/// entry.
pub fn auto_next_follow_up(remove_ok: bool, next: &Option<String>) -> (f: AutoNextFollowUp)
    ensures
        f.pause_instead == !remove_ok,
        !remove_ok ==> f.append is None,
        next is None ==> f.append is None,
        remove_ok ==> (next matches Some(n) ==> f.append matches Some(e) && e.path@ == n@
            && e.mode == LoadMode::Append),
{
    if !remove_ok {
        AutoNextFollowUp { pause_instead: true, append: None }
    } else {
        let append = match next {
            Some(n) => Some(LoadEntry { path: n.clone(), mode: LoadMode::Append }),
            None => None,
        };
        AutoNextFollowUp { pause_instead: false, append }
    }
}

} // verus!
