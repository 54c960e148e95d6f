//! The error handler: the capability that the error hook hands every runtime
//! error to.

use vstd::prelude::*;
use crate::error::RuntimeError;

verus! {

/// Processes one runtime error at a time, and may itself fail.
pub trait Handler: Sized {
    /// Whether a call of [`Handler::handle`] on `self` with `error` can leave
    /// the handler as `after` and return `outcome`.
    ///
    /// This relation is all that verified code knows of a handler. It is
    /// how a contract says that the handler was called, in which order and
    /// with what.
    open spec fn responds(&self, error: RuntimeError, after: &Self, outcome: Result<(), String>) -> bool {
        true
    }

    /// Handles `error`. On failure it returns what went wrong, as text.
    fn handle(&mut self, error: RuntimeError) -> (outcome: Result<(), String>)
        ensures
            old(self).responds(error, final(self), outcome),
    ;
}

/// The handler that ignores every error.
impl Handler for () {
    open spec fn responds(&self, error: RuntimeError, after: &Self, outcome: Result<(), String>) -> bool {
        outcome is Ok
    }

    fn handle(&mut self, error: RuntimeError) -> (outcome: Result<(), String>) {
        Ok(())
    }
}

} // verus!
