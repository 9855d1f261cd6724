//! Control plane for a single stateful media-playback engine.
//!
//! The engine (an external player core, driven over its command/property
//! interface and a polled event channel) allows only one command in flight
//! at a time. This crate holds the decision logic of the control layer:
//! how a high-level request (set the queue, start playback, change the
//! volume) is validated and turned into an ordered series of low-level
//! engine operations, and how the asynchronous confirmation of a playback
//! start is judged from the events the engine emits. The surrounding
//! process performs the engine calls and the locking; every decision it
//! acts on is computed and verified here.

pub mod commands;
pub mod engine;
pub mod errors;
pub mod executor;
pub mod queue;
pub mod sequencer;
pub mod stream;
