//! The primitives that the supervisor is built from: tokio's bounded queue,
//! its watch channel and its `Notify`, and the cell of the `atomic_take`
//! crate.
//!
//! Verus does not look into any of them. What this crate relies on is stated
//! here, one contract for each function that is called, and believed without
//! proof.
//!
//! The sending half of a watch channel and the cell are written through
//! `&mut` only, so that what they hold is a matter of the calls made here
//! and of nothing else: the supervisor shares neither of them, and the
//! receiving halves of a watch channel cannot write. A bus is different. Its
//! consumer empties it from another task, so nothing is said here of what a
//! bus holds at any moment, only of the capacity that it was made with.

use vstd::prelude::*;
use std::sync::Arc;
use crate::config::{valid_channel_size, ActionConfig, FsConfig};
use crate::error::{CriticalError, RuntimeError};
use crate::event::Event;

verus! {

/// `tokio::sync::Notify`, the start gate.
#[verifier::external_type_specification]
#[verifier::external_body]
pub struct ExNotify(tokio::sync::Notify);

/// `tokio::task::JoinHandle`, the handle to a spawned task.
#[verifier::external_type_specification]
#[verifier::external_body]
#[verifier::reject_recursive_types(T)]
pub struct ExJoinHandle<T>(tokio::task::JoinHandle<T>);

/// `tokio::sync::mpsc::Sender`, a producing end of a bus.
#[verifier::external_type_specification]
#[verifier::external_body]
#[verifier::reject_recursive_types(T)]
pub struct ExBusSender<T>(tokio::sync::mpsc::Sender<T>);

/// `tokio::sync::mpsc::Receiver`, the consuming end of a bus.
#[verifier::external_type_specification]
#[verifier::external_body]
#[verifier::reject_recursive_types(T)]
pub struct ExBusReceiver<T>(tokio::sync::mpsc::Receiver<T>);

/// `tokio::sync::watch::Sender`, the writing end of a configuration channel.
#[verifier::external_type_specification]
#[verifier::external_body]
#[verifier::reject_recursive_types(T)]
pub struct ExWatchSender<T>(tokio::sync::watch::Sender<T>);

/// `tokio::sync::watch::Receiver`, a reading end of a configuration channel.
#[verifier::external_type_specification]
#[verifier::external_body]
#[verifier::reject_recursive_types(T)]
pub struct ExWatchReceiver<T>(tokio::sync::watch::Receiver<T>);

/// `atomic_take::AtomicTake`, a cell whose content can be taken out once.
#[verifier::external_type_specification]
#[verifier::external_body]
#[verifier::reject_recursive_types(T)]
pub struct ExAtomicTake<T>(atomic_take::AtomicTake<T>);

/// The handle to the main task. Awaiting it gives the supervisor's result.
pub type MainTask = tokio::task::JoinHandle<Result<(), CriticalError>>;

/// How the event bus answers when it is offered an event without waiting.
#[derive(Debug)]
pub enum Offer {
    /// The event is on the bus.
    Accepted,
    /// The bus is at capacity. The event comes back.
    Full(Event),
    /// The consumer is gone for good. The event comes back.
    Closed(Event),
}

/// The task that the cell holds, if it has not been taken out yet.
pub uninterp spec fn held_task(cell: atomic_take::AtomicTake<MainTask>) -> Option<MainTask>;

/// The snapshot that the receivers of the action channel see.
pub uninterp spec fn latest_action(tx: tokio::sync::watch::Sender<ActionConfig>) -> ActionConfig;

/// The snapshot that the receivers of the filesystem channel see.
pub uninterp spec fn latest_fs(tx: tokio::sync::watch::Sender<FsConfig>) -> FsConfig;

/// The capacity that the event bus was made with.
pub uninterp spec fn event_capacity(tx: tokio::sync::mpsc::Sender<Event>) -> usize;

/// The capacity that the error bus was made with.
pub uninterp spec fn error_capacity(tx: tokio::sync::mpsc::Sender<RuntimeError>) -> usize;

/// `tokio::sync::mpsc::channel`: a bounded queue that holds up to `capacity`
/// events. It panics on a capacity of zero and on one above the limit of
/// tokio's semaphore, `usize::MAX >> 3`.
#[verifier::external_body]
pub(crate) fn event_bus(capacity: usize) -> (bus: (
    tokio::sync::mpsc::Sender<Event>,
    tokio::sync::mpsc::Receiver<Event>,
))
    requires
        valid_channel_size(capacity),
    ensures
        event_capacity(bus.0) == capacity,
{
    tokio::sync::mpsc::channel(capacity)
}

/// `tokio::sync::mpsc::channel`, for the error bus: a bounded queue that
/// holds up to `capacity` runtime errors, with the same limits.
#[verifier::external_body]
pub(crate) fn error_bus(capacity: usize) -> (bus: (
    tokio::sync::mpsc::Sender<RuntimeError>,
    tokio::sync::mpsc::Receiver<RuntimeError>,
))
    requires
        valid_channel_size(capacity),
    ensures
        error_capacity(bus.0) == capacity,
{
    tokio::sync::mpsc::channel(capacity)
}

/// `Clone::clone` of `tokio::sync::mpsc::Sender`: one more sender of the same
/// bus.
#[verifier::external_body]
pub(crate) fn another_sender<T>(tx: &tokio::sync::mpsc::Sender<T>) -> tokio::sync::mpsc::Sender<T> {
    tx.clone()
}

/// `tokio::sync::mpsc::Sender::try_send`: puts the event on the bus if there
/// is room and the receiver is alive. If not, the event comes back
/// untouched, with the reason. Which of the three it is depends on what the
/// consumer has done so far.
#[verifier::external_body]
pub(crate) fn offer(tx: &tokio::sync::mpsc::Sender<Event>, event: Event) -> (answer: Offer)
    ensures
        answer matches Offer::Full(back) ==> back == event,
        answer matches Offer::Closed(back) ==> back == event,
{
    match tx.try_send(event) {
        Ok(()) => Offer::Accepted,
        Err(tokio::sync::mpsc::error::TrySendError::Full(back)) => Offer::Full(back),
        Err(tokio::sync::mpsc::error::TrySendError::Closed(back)) => Offer::Closed(back),
    }
}

/// `tokio::sync::watch::channel`: a channel whose receivers see `initial`
/// until something else is sent.
#[verifier::external_body]
pub(crate) fn action_channel(initial: ActionConfig) -> (channel: (
    tokio::sync::watch::Sender<ActionConfig>,
    tokio::sync::watch::Receiver<ActionConfig>,
))
    ensures
        latest_action(channel.0) == initial,
{
    tokio::sync::watch::channel(initial)
}

/// `tokio::sync::watch::channel`, for the filesystem worker.
#[verifier::external_body]
pub(crate) fn fs_channel(initial: FsConfig) -> (channel: (
    tokio::sync::watch::Sender<FsConfig>,
    tokio::sync::watch::Receiver<FsConfig>,
))
    ensures
        latest_fs(channel.0) == initial,
{
    tokio::sync::watch::channel(initial)
}

/// `tokio::sync::watch::Sender::send`: replaces what the receivers see by
/// `snapshot`. Nothing is queued: the value that was there is gone. It fails
/// when no receiver is left; the channel then stays as it was and the
/// snapshot comes back.
#[verifier::external_body]
pub(crate) fn publish_action(
    tx: &mut tokio::sync::watch::Sender<ActionConfig>,
    snapshot: ActionConfig,
) -> (sent: Result<(), ActionConfig>)
    ensures
        sent is Ok ==> latest_action(*final(tx)) == snapshot,
        sent matches Err(back) ==> back == snapshot && latest_action(*final(tx)) == latest_action(
            *old(tx),
        ),
{
    match tx.send(snapshot) {
        Ok(()) => Ok(()),
        Err(refused) => Err(refused.0),
    }
}

/// `tokio::sync::watch::Sender::send`, for the filesystem worker.
#[verifier::external_body]
pub(crate) fn publish_fs(tx: &mut tokio::sync::watch::Sender<FsConfig>, snapshot: FsConfig) -> (sent:
    Result<(), FsConfig>)
    ensures
        sent is Ok ==> latest_fs(*final(tx)) == snapshot,
        sent matches Err(back) ==> back == snapshot && latest_fs(*final(tx)) == latest_fs(*old(tx)),
{
    match tx.send(snapshot) {
        Ok(()) => Ok(()),
        Err(refused) => Err(refused.0),
    }
}

/// `tokio::sync::Notify::new`: a gate that nobody has released yet.
#[verifier::external_body]
pub(crate) fn new_gate() -> tokio::sync::Notify {
    tokio::sync::Notify::new()
}

/// `Clone::clone` of `std::sync::Arc`: a second handle to the same gate.
#[verifier::external_body]
pub(crate) fn share_gate(gate: &Arc<tokio::sync::Notify>) -> Arc<tokio::sync::Notify> {
    gate.clone()
}

/// `tokio::sync::Notify::notify_one`: lets one waiter through, the one that
/// waits now or else the next to come. Releasing again before anyone has
/// passed adds nothing.
#[verifier::external_body]
pub(crate) fn release(gate: &tokio::sync::Notify) {
    gate.notify_one()
}

/// `atomic_take::AtomicTake::new`: a cell that holds `task`.
#[verifier::external_body]
pub(crate) fn hold(task: MainTask) -> (cell: atomic_take::AtomicTake<MainTask>)
    ensures
        held_task(cell) == Some(task),
{
    atomic_take::AtomicTake::new(task)
}

/// `atomic_take::AtomicTake::take`: hands out what the cell holds and leaves
/// it empty.
#[verifier::external_body]
pub(crate) fn take_task(cell: &mut atomic_take::AtomicTake<MainTask>) -> (task: Option<MainTask>)
    ensures
        task == held_task(*old(cell)),
        held_task(*final(cell)) is None,
{
    cell.take()
}

/// `atomic_take::AtomicTake::is_taken`: whether the cell is empty.
#[verifier::external_body]
pub(crate) fn is_taken(cell: &atomic_take::AtomicTake<MainTask>) -> (taken: bool)
    ensures
        taken == (held_task(*cell) is None),
{
    cell.is_taken()
}

} // verus!
