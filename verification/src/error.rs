//! The two tiers of errors: recoverable runtime errors, which go to the error
//! handler, and critical errors, which end the supervisor.

use vstd::prelude::*;
use crate::config::{ActionConfig, FsConfig};
use crate::event::Event;

verus! {

/// `tokio::task::JoinError`: the failure of a spawned task to run to
/// completion, as the runtime reports it. It is carried along, never looked
/// into.
#[verifier::external_type_specification]
#[verifier::external_body]
pub struct ExJoinError(tokio::task::JoinError);

/// A recoverable condition, reported to the error handler.
#[derive(Debug, Clone, PartialEq, Eq)]
pub enum RuntimeError {
    /// Graceful exit was requested. The error hook never hands this to the
    /// handler: it ends the supervisor cleanly instead.
    Exit,
    /// A handler failed. `ctx` says which one, `err` what it reported.
    Handler { ctx: String, err: String },
}

/// What a [`RuntimeError`] says, with its texts as sequences of characters.
pub enum RuntimeErrorView {
    Exit,
    Handler { ctx: Seq<char>, err: Seq<char> },
}

impl View for RuntimeError {
    type V = RuntimeErrorView;

    open spec fn view(&self) -> RuntimeErrorView {
        match self {
            RuntimeError::Exit => RuntimeErrorView::Exit,
            RuntimeError::Handler { ctx, err } => RuntimeErrorView::Handler { ctx: ctx@, err: err@ },
        }
    }
}

impl RuntimeError {
    /// Whether this is the request for a graceful exit.
    pub fn is_exit(&self) -> (r: bool)
        ensures
            r == (self is Exit),
    {
        match self {
            RuntimeError::Exit => true,
            RuntimeError::Handler { .. } => false,
        }
    }
}

/// Wraps what a handler reported in a runtime error tagged with `ctx`.
pub fn rte(ctx: &str, err: String) -> (r: RuntimeError)
    ensures
        r@ == (RuntimeErrorView::Handler { ctx: ctx@, err: err@ }),
{
    RuntimeError::Handler { ctx: ctx.to_owned(), err }
}

/// A configuration channel refused a snapshot because the worker that
/// follows it is gone. The snapshot comes back in the error.
#[derive(Debug, Clone, PartialEq, Eq)]
pub enum ReconfigError {
    ActionWatch(ActionConfig),
    FsWatch(FsConfig),
}

/// A fatal condition: the supervisor's main task ends with it.
#[derive(Debug)]
pub enum CriticalError {
    /// Unwinds the main task on a graceful exit. It never reaches the caller
    /// as a failure: the main task's result is success.
    Exit,
    /// A subtask did not run to completion.
    MainTaskJoin(tokio::task::JoinError),
    /// The event bus has lost its consumer. The event that could not be
    /// delivered comes back in the error.
    EventChannelSend(Event),
    /// A worker could not apply a new configuration.
    Reconfig(ReconfigError),
}

/// A configuration that a worker could not apply ends that worker.
impl From<ReconfigError> for CriticalError {
    fn from(e: ReconfigError) -> (r: CriticalError) {
        CriticalError::Reconfig(e)
    }
}

impl vstd::std_specs::convert::FromSpecImpl<ReconfigError> for CriticalError {
    open spec fn obeys_from_spec() -> bool {
        true
    }

    open spec fn from_spec(e: ReconfigError) -> CriticalError {
        CriticalError::Reconfig(e)
    }
}

} // verus!
