//! The main task: it waits for the start gate, spawns the workers once, and
//! ends as soon as one of them ends.
//!
//! The task itself runs outside this crate, because it has to wait. What it
//! decides stands here: [`advance`] says, for the phase the task is in and
//! for what woke it, which phase comes next and what is to be done.
//!
//! The other workers are not cancelled when the task ends. They go on in the
//! background until their own channels close, and what they return then is
//! ignored.

use vstd::prelude::*;
use crate::error::{CriticalError, RuntimeError};
use crate::hook::{asks_exit, hook_run, lemma_hook_ends, HookStep};

verus! {

/// Where the main task stands.
#[derive(Debug, Clone, Copy, PartialEq, Eq)]
pub enum Phase {
    /// Waiting on the start gate. No worker exists yet.
    Armed,
    /// The workers are spawned; none has ended.
    Running,
    /// A worker has ended, and with it the main task.
    Finished,
}

/// What wakes the main task.
#[derive(Debug)]
pub enum Wake {
    /// The start gate was released.
    Released,
    /// A worker ended: its own result, or the failure to run it to the end.
    Joined(Result<Result<(), CriticalError>, tokio::task::JoinError>),
}

/// What the main task does next.
#[derive(Debug)]
pub enum Directive {
    /// Nothing: go on waiting.
    Wait,
    /// Spawn the four workers: the action worker, the error hook, the
    /// filesystem worker and the signal source.
    Spawn,
    /// End with this result.
    Complete(Result<(), CriticalError>),
}

/// The result of a worker once joined: a worker that did not run to its end
/// is a critical error, any other worker speaks for itself.
pub open spec fn flattened(
    join_res: Result<Result<(), CriticalError>, tokio::task::JoinError>,
) -> Result<(), CriticalError> {
    match join_res {
        Ok(res) => res,
        Err(e) => Err(CriticalError::MainTaskJoin(e)),
    }
}

/// The main task's result, given that of the worker that ended first: a
/// graceful exit is no error, everything else stays what it is.
pub open spec fn settled(res: Result<(), CriticalError>) -> Result<(), CriticalError> {
    match res {
        Err(CriticalError::Exit) => Ok(()),
        other => other,
    }
}

/// The phase that follows `phase` on `wake`, and what is to be done.
///
/// The start gate opens the armed task, once. The first worker to end, in success
/// or not, ends the running task. Whatever does not fit the phase changes
/// nothing.
pub open spec fn advanced(phase: Phase, wake: Wake) -> (Phase, Directive) {
    match (phase, wake) {
        (Phase::Armed, Wake::Released) => (Phase::Running, Directive::Spawn),
        (Phase::Running, Wake::Joined(join_res)) => (
            Phase::Finished,
            Directive::Complete(settled(flattened(join_res))),
        ),
        _ => (phase, Directive::Wait),
    }
}

/// Says what a worker has come to, once joined.
pub fn flatten(
    join_res: Result<Result<(), CriticalError>, tokio::task::JoinError>,
) -> (r: Result<(), CriticalError>)
    ensures
        r == flattened(join_res),
{
    match join_res {
        Ok(res) => res,
        Err(e) => Err(CriticalError::MainTaskJoin(e)),
    }
}

/// Says what the main task ends with, given the result of the worker that
/// ended first.
pub fn settle(res: Result<(), CriticalError>) -> (r: Result<(), CriticalError>)
    ensures
        r == settled(res),
{
    match res {
        Err(CriticalError::Exit) => Ok(()),
        other => other,
    }
}

/// Says which phase follows `phase` on `wake`, and what is to be done.
pub fn advance(phase: Phase, wake: Wake) -> (r: (Phase, Directive))
    ensures
        r == advanced(phase, wake),
{
    match phase {
        Phase::Armed => match wake {
            Wake::Released => (Phase::Running, Directive::Spawn),
            Wake::Joined(_) => (Phase::Armed, Directive::Wait),
        },
        Phase::Running => match wake {
            Wake::Released => (Phase::Running, Directive::Wait),
            Wake::Joined(join_res) => (Phase::Finished, Directive::Complete(settle(flatten(join_res)))),
        },
        Phase::Finished => (Phase::Finished, Directive::Wait),
    }
}

/// What the main task is told to do, one directive for each of `wakes`,
/// starting from `phase`.
pub open spec fn directives(phase: Phase, wakes: Seq<Wake>) -> Seq<Directive>
    decreases wakes.len(),
{
    if wakes.len() == 0 {
        Seq::empty()
    } else {
        let (next, directive) = advanced(phase, wakes[0]);
        seq![directive] + directives(next, wakes.skip(1))
    }
}

/// How many of `directives` spawn the workers.
pub open spec fn spawns(directives: Seq<Directive>) -> nat
    decreases directives.len(),
{
    if directives.len() == 0 {
        0
    } else {
        spawns(directives.skip(1)) + if directives[0] is Spawn { 1nat } else { 0nat }
    }
}

/// How many of `directives` end the main task.
pub open spec fn completions(directives: Seq<Directive>) -> nat
    decreases directives.len(),
{
    if directives.len() == 0 {
        0
    } else {
        completions(directives.skip(1)) + if directives[0] is Complete { 1nat } else { 0nat }
    }
}

/// Whatever wakes the main task, how often and in which order: the workers
/// are spawned once at most, and only from the armed phase; the task ends
/// once at most, and never again once it is finished.
pub proof fn lemma_spawns_and_ends_once(phase: Phase, wakes: Seq<Wake>)
    ensures
        spawns(directives(phase, wakes)) <= 1,
        completions(directives(phase, wakes)) <= 1,
        !(phase is Armed) ==> spawns(directives(phase, wakes)) == 0,
        phase is Finished ==> completions(directives(phase, wakes)) == 0,
    decreases wakes.len(),
{
    if wakes.len() > 0 {
        let next = advanced(phase, wakes[0]).0;
        lemma_spawns_and_ends_once(next, wakes.skip(1));
        assert(directives(phase, wakes).skip(1) == directives(next, wakes.skip(1)));
    }
}

/// The first worker to end decides: when the start gate is released and a worker
/// then ends with `first`, the main task ends with what `first` settles to,
/// and nothing that wakes it afterwards is acted on.
pub proof fn lemma_first_to_end_decides(
    first: Result<Result<(), CriticalError>, tokio::task::JoinError>,
    later: Seq<Wake>,
)
    ensures
        directives(Phase::Armed, seq![Wake::Released, Wake::Joined(first)] + later)
            == seq![Directive::Spawn, Directive::Complete(settled(flattened(first)))] + Seq::new(
            later.len(),
            |i: int| Directive::Wait,
        ),
{
    let wakes = seq![Wake::Released, Wake::Joined(first)] + later;
    let after_release = wakes.skip(1);
    let after_join = after_release.skip(1);
    assert(after_join == later);
    lemma_finished_waits(later);
    assert(directives(Phase::Armed, wakes) == seq![Directive::Spawn] + directives(
        Phase::Running,
        after_release,
    ));
}

/// The finished task goes on waiting, whatever wakes it.
pub proof fn lemma_finished_waits(wakes: Seq<Wake>)
    ensures
        directives(Phase::Finished, wakes) == Seq::new(wakes.len(), |i: int| Directive::Wait),
    decreases wakes.len(),
{
    if wakes.len() > 0 {
        lemma_finished_waits(wakes.skip(1));
    }
}

/// A graceful exit is no failure. When a request for a graceful exit is
/// among the errors that the error bus yields, the error hook stops with
/// [`CriticalError::Exit`], and the running main task that joins the hook
/// ends in success.
pub proof fn lemma_graceful_exit(received: Seq<RuntimeError>)
    requires
        asks_exit(received),
    ensures
        hook_run(received) == HookStep::Finish(Err(CriticalError::Exit)),
        advanced(Phase::Running, Wake::Joined(Ok(Err(CriticalError::Exit)))) == (
            Phase::Finished,
            Directive::Complete(Ok(())),
        ),
{
    lemma_hook_ends(received);
}

} // verus!
