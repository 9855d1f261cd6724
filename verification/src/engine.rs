//! The engine's interface as the control layer sees it: the low-level
//! operations it can issue, the events the engine emits, and a model of
//! how each operation changes the engine's playlist.
//!
//! The engine itself is an external player core; the surrounding process
//! performs these operations against it. The playlist model here is the
//! ground the queue contracts stand on: the engine's playlist is a sequence
//! of track paths, slot 0 is the now-playing entry and slot 1 the on-deck
//! entry.

use vstd::prelude::*;

verus! {

/// How one entry of a load call treats the playlist it meets: `Replace`
/// discards the whole playlist and becomes its only entry, `Append` is
/// added at the end.
#[derive(Debug, Clone, Copy, PartialEq, Eq, Structural)]
pub enum LoadMode {
    Replace,
    Append,
}

/// One track of a load call: the track's path and how it is inserted.
#[derive(Debug, Clone, PartialEq, Eq)]
pub struct LoadEntry {
    pub path: String,
    pub mode: LoadMode,
}

/// A property value the engine can be asked to take.
#[derive(Debug, Clone, PartialEq, Eq)]
pub enum PropertyValue {
    Flag(bool),
    Int(i64),
    Text(String),
}

/// One low-level engine operation. The surrounding process owes the engine
/// lock while it performs one, so at most one is ever in flight.
#[derive(Debug, Clone, PartialEq, Eq)]
pub enum EngineOp {
    /// Set a named engine property.
    SetProperty { key: String, value: PropertyValue },
    /// One load call carrying the entries in order.
    LoadFiles { entries: Vec<LoadEntry> },
    /// Remove the playlist entry at this index, if it exists.
    RemoveIndex { index: u64 },
    /// Discard every playlist entry.
    ClearPlaylist,
    /// Advance to the next playlist entry.
    PlaylistNext,
    /// Step back to the previous playlist entry.
    PlaylistPrevious,
    /// Suspend playback, keeping the loaded file.
    Pause,
    /// Resume playback of the already-loaded file.
    Unpause,
    /// Ask an idle engine to start playing from its playlist.
    PlayFromPlaylist,
    /// Stop playback and unload the file.
    Stop,
    /// Shut the engine down.
    Quit,
    /// Seek relative to the current position.
    SeekBy { offset_millis: i64 },
    /// Seek to an absolute position.
    SeekTo { position_millis: i64 },
}

/// An event the engine emits on its polled event channel. Kinds the
/// control layer does not decide on are folded into `Other`; the
/// surrounding process still forwards them verbatim to subscribers.
#[derive(Debug, Clone, Copy, PartialEq, Eq, Structural)]
pub enum EngineEvent {
    /// The engine began working on a new file.
    StartFile,
    /// The current file finished loading and is ready to play.
    FileLoaded,
    /// The current file ended, with the engine's reason code.
    EndFile(i64),
    /// Any other event kind.
    Other,
}

/// The playlist after one load entry: a `Replace` entry discards the
/// playlist and stands alone, an `Append` entry joins the end.
pub open spec fn load_entry_effect(playlist: Seq<Seq<char>>, entry: LoadEntry) -> Seq<Seq<char>> {
    match entry.mode {
        LoadMode::Replace => seq![entry.path@],
        LoadMode::Append => playlist.push(entry.path@),
    }
}

/// The playlist after one load call, its entries applied in order.
pub open spec fn load_effect(playlist: Seq<Seq<char>>, entries: Seq<LoadEntry>) -> Seq<Seq<char>>
    decreases entries.len(),
{
    if entries.len() == 0 {
        playlist
    } else {
        load_effect(load_entry_effect(playlist, entries[0]), entries.skip(1))
    }
}

/// The playlist after a removal: the entry at `index` disappears; an index
/// beyond the playlist leaves it unchanged.
pub open spec fn remove_effect(playlist: Seq<Seq<char>>, index: int) -> Seq<Seq<char>> {
    if 0 <= index < playlist.len() {
        playlist.remove(index)
    } else {
        playlist
    }
}

/// How one engine operation changes the playlist; operations that do not
/// touch the playlist contents leave it as it is.
pub open spec fn op_playlist_effect(playlist: Seq<Seq<char>>, op: EngineOp) -> Seq<Seq<char>> {
    match op {
        EngineOp::LoadFiles { entries } => load_effect(playlist, entries@),
        EngineOp::RemoveIndex { index } => remove_effect(playlist, index as int),
        EngineOp::ClearPlaylist => Seq::empty(),
        _ => playlist,
    }
}

/// The playlist after a series of operations, applied in order.
pub open spec fn ops_playlist_effect(playlist: Seq<Seq<char>>, ops: Seq<EngineOp>) -> Seq<
    Seq<char>,
>
    decreases ops.len(),
{
    if ops.len() == 0 {
        playlist
    } else {
        ops_playlist_effect(op_playlist_effect(playlist, ops[0]), ops.skip(1))
    }
}

} // verus!
