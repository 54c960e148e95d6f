//! Runtime supervisor for a file-watching command runner.
//!
//! The supervisor ties together the event sources, the action worker and the
//! error hook through bounded buses and single-slot configuration channels,
//! starts them exactly once, and folds their results into one outcome.
//!
//! Everything here is synchronous. Whatever has to wait (for the start gate,
//! for a free slot on a bus, for a subtask to end) is done by the caller, who
//! hands the answer back to the functions of this crate.

pub mod channel;
pub mod config;
pub mod error;
pub mod event;
pub mod handler;
pub mod hook;
pub mod lifecycle;
pub mod supervisor;
pub mod wiring;

pub use supervisor::Watchexec;
