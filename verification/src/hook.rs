//! The error hook: the single consumer of the error bus.
//!
//! The hook hands every runtime error to the handler. A handler that fails is
//! told of its own failure once, and a second failure is dropped, so that a
//! broken handler cannot keep the hook busy forever. The request for a
//! graceful exit is the one error that the handler never sees.

use vstd::prelude::*;
use crate::error::{rte, CriticalError, RuntimeError, RuntimeErrorView};
use crate::handler::Handler;

verus! {

/// What the hook does after it has dealt with what the error bus yielded.
#[derive(Debug)]
pub enum HookStep {
    /// Wait for the next error.
    Continue,
    /// Stop, with this result.
    Finish(Result<(), CriticalError>),
}

/// The step that follows from what the error bus yielded: the bus closing
/// ends the hook in success, the request for a graceful exit ends it with
/// [`CriticalError::Exit`], and after any other error it goes on.
pub open spec fn hook_step(received: Option<RuntimeError>) -> HookStep {
    match received {
        None => HookStep::Finish(Ok(())),
        Some(RuntimeError::Exit) => HookStep::Finish(Err(CriticalError::Exit)),
        Some(RuntimeError::Handler { .. }) => HookStep::Continue,
    }
}

/// `retry` is what the handler is told after it failed with `failure`.
pub open spec fn reports_failure(retry: RuntimeError, failure: String) -> bool {
    retry@ == (RuntimeErrorView::Handler { ctx: "error hook"@, err: failure@ })
}

/// The handler went from `before` to `after` by being given `error`, and,
/// if it failed on it, by being given the report of that failure. Nothing
/// else was done to it: two calls at most, whatever the second one returned.
pub open spec fn handled<H: Handler>(before: H, error: RuntimeError, after: H) -> bool {
    exists|mid: H, first: Result<(), String>| #[trigger]
        before.responds(error, &mid, first) && match first {
            Ok(_) => after == mid,
            Err(failure) => exists|retry: RuntimeError, second: Result<(), String>|
                reports_failure(retry, failure) && #[trigger] mid.responds(retry, &after, second),
        }
}

/// Deals with what the error bus yielded: `None` once the bus is closed,
/// else the next error.
pub fn error_hook<H: Handler>(handler: &mut H, received: Option<RuntimeError>) -> (step: HookStep)
    ensures
        step == hook_step(received),
        received matches Some(error) ==> error is Exit || handled(
            *old(handler),
            error,
            *final(handler),
        ),
        received is None || received == Some(RuntimeError::Exit) ==> *final(handler) == *old(
            handler,
        ),
{
    match received {
        None => HookStep::Finish(Ok(())),
        Some(RuntimeError::Exit) => HookStep::Finish(Err(CriticalError::Exit)),
        Some(error) => {
            let first = handler.handle(error);
            match first {
                Ok(()) => {},
                Err(failure) => {
                    // Whatever the handler makes of its own failure is dropped.
                    let _ = handler.handle(rte("error hook", failure));
                },
            }
            HookStep::Continue
        },
    }
}

/// The step on which the hook stops when the error bus yields `received`,
/// in this order, and is then closed.
pub open spec fn hook_run(received: Seq<RuntimeError>) -> HookStep
    decreases received.len(),
{
    if received.len() == 0 {
        hook_step(None)
    } else {
        let step = hook_step(Some(received[0]));
        if step is Continue {
            hook_run(received.skip(1))
        } else {
            step
        }
    }
}

/// Whether a request for a graceful exit is among `received`.
pub open spec fn asks_exit(received: Seq<RuntimeError>) -> bool {
    exists|i: int| 0 <= i < received.len() && received[i] is Exit
}

/// The hook always comes to an end once the bus is closed, however many
/// errors came before: with [`CriticalError::Exit`] if one of them asked for
/// a graceful exit, in success if none did.
pub proof fn lemma_hook_ends(received: Seq<RuntimeError>)
    ensures
        asks_exit(received) ==> hook_run(received) == HookStep::Finish(Err(CriticalError::Exit)),
        !asks_exit(received) ==> hook_run(received) == HookStep::Finish(Ok(())),
    decreases received.len(),
{
    if received.len() > 0 {
        let rest = received.skip(1);
        lemma_hook_ends(rest);
        if received[0] is Exit {
        } else {
            if asks_exit(received) {
                let i = choose|i: int| 0 <= i < received.len() && received[i] is Exit;
                assert(rest[i - 1] is Exit);
            }
            if asks_exit(rest) {
                let j = choose|j: int| 0 <= j < rest.len() && rest[j] is Exit;
                assert(received[j + 1] is Exit);
            }
        }
    }
}

} // verus!
