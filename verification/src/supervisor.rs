//! The supervisor: it owns the sending ends of every channel and the handle
//! to the main task.

use vstd::prelude::*;
use std::sync::Arc;
use crate::channel::{
    action_channel, another_sender, event_bus, event_capacity, fs_channel, held_task, hold,
    is_taken, latest_action, latest_fs, new_gate, offer, publish_action, publish_fs, release,
    share_gate, take_task, MainTask, Offer,
};
use crate::config::{valid_channel_size, ActionConfig, FsConfig, InitConfig, RuntimeConfig};
use crate::error::{CriticalError, ReconfigError};
use crate::event::Event;
use crate::wiring::TaskParts;

verus! {

/// The supervisor.
///
/// It ties the pieces together: it makes the channels, has the main task
/// spawned, and then lets the caller replace the configuration, inject
/// events, and start the whole.
#[derive(Debug)]
pub struct Watchexec {
    handle: atomic_take::AtomicTake<MainTask>,
    start_lock: Arc<tokio::sync::Notify>,
    action_watch: tokio::sync::watch::Sender<ActionConfig>,
    fs_watch: tokio::sync::watch::Sender<FsConfig>,
    event_input: tokio::sync::mpsc::Sender<Event>,
}

/// What a supervisor stands for.
pub struct Supervisor {
    /// The handle to the main task, until [`Watchexec::main`] hands it out.
    pub task: Option<MainTask>,
    /// The snapshot that the action worker sees when it next looks.
    pub action: ActionConfig,
    /// The snapshot that the filesystem worker sees when it next looks.
    pub fs: FsConfig,
    /// The capacity of the event bus.
    pub event_capacity: usize,
}

impl View for Watchexec {
    type V = Supervisor;

    closed spec fn view(&self) -> Supervisor {
        Supervisor {
            task: held_task(self.handle),
            action: latest_action(self.action_watch),
            fs: latest_fs(self.fs_watch),
            event_capacity: event_capacity(self.event_input),
        }
    }
}

/// The supervisor once it has handed out the handle to its main task.
pub open spec fn started(before: Supervisor) -> Supervisor {
    Supervisor { task: None, ..before }
}

/// What has become of an event that was handed to the supervisor.
#[derive(Debug)]
pub enum Sent {
    /// It is on the event bus.
    Queued,
    /// The bus is at capacity and the event is not on it. The sender is to
    /// wait until a slot is free and to hand the event in again.
    Suspended(Event),
}

/// What becomes of an event, given the answer of the event bus. A full bus
/// suspends the sender: the event is neither dropped nor an error. Only a
/// bus without its consumer is an error, and a critical one.
pub open spec fn delivered(answer: Offer) -> Result<Sent, CriticalError> {
    match answer {
        Offer::Accepted => Ok(Sent::Queued),
        Offer::Full(event) => Ok(Sent::Suspended(event)),
        Offer::Closed(event) => Err(CriticalError::EventChannelSend(event)),
    }
}

/// Says what becomes of an event, given the answer of the event bus.
pub fn delivery(answer: Offer) -> (r: Result<Sent, CriticalError>)
    ensures
        r == delivered(answer),
{
    match answer {
        Offer::Accepted => Ok(Sent::Queued),
        Offer::Full(event) => Ok(Sent::Suspended(event)),
        Offer::Closed(event) => Err(CriticalError::EventChannelSend(event)),
    }
}

/// Backpressure: the event bus never loses an event and never fails in
/// silence. An event that does not get on the bus comes back, to the sender
/// who is to wait or in the error. A full bus is no error; the one error
/// there is comes from a bus whose consumer is gone, and it is critical.
pub proof fn lemma_backpressure(answer: Offer)
    ensures
        answer matches Offer::Full(event) ==> delivered(answer) == Ok::<Sent, CriticalError>(
            Sent::Suspended(event),
        ),
        delivered(answer) is Err <==> answer is Closed,
        delivered(answer) matches Err(e) ==> answer matches Offer::Closed(event) && e
            == CriticalError::EventChannelSend(event),
        delivered(answer) == Ok::<Sent, CriticalError>(Sent::Queued) <==> answer is Accepted,
{
}

/// The supervisor after a reconfiguration with `config`, of which the action
/// channel took its part or not, and the filesystem channel likewise. A
/// channel that takes a snapshot forgets the one before.
pub open spec fn reconfigured(
    before: Supervisor,
    config: RuntimeConfig,
    action_taken: bool,
    fs_taken: bool,
) -> Supervisor {
    Supervisor {
        action: if action_taken { config.action } else { before.action },
        fs: if fs_taken { config.fs } else { before.fs },
        ..before
    }
}

/// What a reconfiguration returns. Where both channels refuse, the error is
/// that of the filesystem channel, which is asked last.
pub open spec fn reconfigure_result(
    action: Result<(), ActionConfig>,
    fs: Result<(), FsConfig>,
) -> Result<(), ReconfigError> {
    match (action, fs) {
        (_, Err(refused)) => Err(ReconfigError::FsWatch(refused)),
        (Err(refused), Ok(_)) => Err(ReconfigError::ActionWatch(refused)),
        (Ok(_), Ok(_)) => Ok(()),
    }
}

/// Says what a reconfiguration returns, given what each channel did with its
/// part.
pub fn reconfigure_outcome(action: Result<(), ActionConfig>, fs: Result<(), FsConfig>) -> (r: Result<
    (),
    ReconfigError,
>)
    ensures
        r == reconfigure_result(action, fs),
{
    match fs {
        Err(refused) => Err(ReconfigError::FsWatch(refused)),
        Ok(()) => match action {
            Err(refused) => Err(ReconfigError::ActionWatch(refused)),
            Ok(()) => Ok(()),
        },
    }
}

/// `task` is what `spawn` returned when it was given the parts of a main
/// task, `init` among them.
pub open spec fn spawned<H, S: FnOnce(TaskParts<H>) -> MainTask>(
    spawn: S,
    init: InitConfig<H>,
    task: MainTask,
) -> bool {
    exists|parts: TaskParts<H>| parts.init == init && #[trigger] call_ensures(spawn, (parts,), task)
}

impl Watchexec {
    /// Makes a supervisor from its configuration.
    ///
    /// The event bus and the two configuration channels are made here, the
    /// channels already holding the snapshots of `runtime`. `spawn` is
    /// called once, with what the main task needs, and returns the handle to
    /// that task. The task is to wait on the start gate: nothing runs until
    /// [`Watchexec::main`] is called.
    pub fn new<H, S>(init: InitConfig<H>, runtime: RuntimeConfig, spawn: S) -> (wx: Watchexec) where
        S: FnOnce(TaskParts<H>) -> MainTask,

        requires
            valid_channel_size(init.event_channel_size),
            forall|parts: TaskParts<H>|
                parts.init == init ==> #[trigger] call_requires(spawn, (parts,)),
        ensures
            wx@.action == runtime.action,
            wx@.fs == runtime.fs,
            wx@.event_capacity == init.event_channel_size,
            wx@.task matches Some(task) && spawned(spawn, init, task),
    {
        let (event_input, events) = event_bus(init.event_channel_size);
        let (action_watch, action_config) = action_channel(runtime.action);
        let (fs_watch, fs_config) = fs_channel(runtime.fs);
        let start_lock = Arc::new(new_gate());
        let parts = TaskParts {
            init,
            start_lock: share_gate(&start_lock),
            action_config,
            fs_config,
            event_input: another_sender(&event_input),
            events,
        };
        let task = spawn(parts);
        Watchexec { handle: hold(task), start_lock, action_watch, fs_watch, event_input }
    }

    /// Replaces the configuration.
    ///
    /// Each channel is given its part, whatever became of the other part. A
    /// worker sees the new snapshot when it next looks, and never one that
    /// was replaced before it looked. A channel refuses only when its worker
    /// is gone.
    pub fn reconfigure(&mut self, config: RuntimeConfig) -> (r: Result<(), ReconfigError>)
        ensures
            exists|action: Result<(), ActionConfig>, fs: Result<(), FsConfig>|
                {
                    &&& action matches Err(refused) ==> refused == config.action
                    &&& fs matches Err(refused) ==> refused == config.fs
                    &&& r == reconfigure_result(action, fs)
                    &&& final(self)@ == reconfigured(old(self)@, config, action is Ok, fs is Ok)
                },
    {
        let action = publish_action(&mut self.action_watch, config.action);
        let fs = publish_fs(&mut self.fs_watch, config.fs);
        reconfigure_outcome(action, fs)
    }

    /// Offers an event to the event bus, without waiting.
    ///
    /// On [`Sent::Suspended`] the bus is at capacity: the caller waits until
    /// the consumer has made room and hands the same event in again.
    pub fn send_event(&self, event: Event) -> (r: Result<Sent, CriticalError>)
        ensures
            r matches Ok(Sent::Suspended(back)) ==> back == event,
            r matches Err(e) ==> e == CriticalError::EventChannelSend(event),
    {
        delivery(offer(&self.event_input, event))
    }

    /// Whether [`Watchexec::main`] has been called.
    pub fn started(&self) -> (r: bool)
        ensures
            r == (self@.task is None),
    {
        is_taken(&self.handle)
    }

    /// Starts the supervisor and hands out the handle to its main task.
    ///
    /// This releases the start gate. It can be done once: the handle exists
    /// once, and after this call the supervisor holds none.
    pub fn main(&mut self) -> (task: MainTask)
        requires
            old(self)@.task is Some,
        ensures
            old(self)@.task == Some(task),
            final(self)@ == started(old(self)@),
    {
        release(&self.start_lock);
        let task = take_task(&mut self.handle);
        task.unwrap()
    }
}

/// One call on a supervisor. A reconfiguration comes with what the two
/// channels did with it, which is not for the caller to decide.
pub enum Call {
    Reconfigure { config: RuntimeConfig, action_taken: bool, fs_taken: bool },
    SendEvent,
    Main,
}

/// Whether `call` can be made on `s`. Only [`Watchexec::main`] asks for
/// anything: that the handle is still there.
pub open spec fn permitted(s: Supervisor, call: Call) -> bool {
    call is Main ==> s.task is Some
}

/// The supervisor after `call`.
pub open spec fn after(s: Supervisor, call: Call) -> Supervisor {
    match call {
        Call::Reconfigure { config, action_taken, fs_taken } => reconfigured(
            s,
            config,
            action_taken,
            fs_taken,
        ),
        Call::SendEvent => s,
        Call::Main => started(s),
    }
}

/// The supervisor after `calls`, made in this order.
pub open spec fn after_all(s: Supervisor, calls: Seq<Call>) -> Supervisor
    decreases calls.len(),
{
    if calls.len() == 0 {
        s
    } else {
        after_all(after(s, calls[0]), calls.skip(1))
    }
}

/// Whether each of `calls` can be made when its turn comes.
pub open spec fn all_permitted(s: Supervisor, calls: Seq<Call>) -> bool
    decreases calls.len(),
{
    calls.len() == 0 || (permitted(s, calls[0]) && all_permitted(after(s, calls[0]), calls.skip(1)))
}

/// Whether `call` puts a new snapshot on the action channel.
pub open spec fn publishes_action(call: Call) -> bool {
    call matches Call::Reconfigure { action_taken, .. } && action_taken
}

/// Whether `call` puts a new snapshot on the filesystem channel.
pub open spec fn publishes_fs(call: Call) -> bool {
    call matches Call::Reconfigure { fs_taken, .. } && fs_taken
}

/// The supervisor starts once. In no run of calls that can be made does
/// [`Watchexec::main`] come twice: after the first, the second cannot be
/// made. And the first is handed the task that the supervisor held from the
/// beginning.
///
/// Callers that share a supervisor take turns, because
/// [`Watchexec::main`] needs it for itself. So however many of them try,
/// one gets the handle.
pub proof fn lemma_start_once(s: Supervisor, calls: Seq<Call>, i: int, j: int)
    requires
        all_permitted(s, calls),
        0 <= i < j < calls.len(),
        calls[i] is Main,
    ensures
        !(calls[j] is Main),
        after_all(s, calls.take(i)).task == s.task,
        s.task is Some,
    decreases calls.len(),
{
    let rest = calls.skip(1);
    if i == 0 {
        lemma_started_stays_started(after(s, calls[0]), rest, j - 1);
    } else {
        lemma_start_once(after(s, calls[0]), rest, i - 1, j - 1);
        assert(calls.take(i).skip(1) =~= rest.take(i - 1));
    }
}

/// Once the handle is out, no call that can be made is
/// [`Watchexec::main`].
pub proof fn lemma_started_stays_started(s: Supervisor, calls: Seq<Call>, j: int)
    requires
        s.task is None,
        all_permitted(s, calls),
        0 <= j < calls.len(),
    ensures
        !(calls[j] is Main),
    decreases calls.len(),
{
    if j > 0 {
        lemma_started_stays_started(after(s, calls[0]), calls.skip(1), j - 1);
    }
}

/// The latest snapshot wins. Whatever calls are made, and however many
/// snapshots are published before a worker looks: what the worker then sees
/// on its channel is the snapshot of the last reconfiguration that the
/// channel took, never an earlier one.
pub proof fn lemma_latest_wins(s: Supervisor, calls: Seq<Call>, last: int)
    requires
        0 <= last < calls.len(),
        calls[last] is Reconfigure,
    ensures
        publishes_action(calls[last]) && (forall|k: int|
            last < k < calls.len() ==> !publishes_action(calls[k])) ==> after_all(s, calls).action
            == calls[last]->config.action,
        publishes_fs(calls[last]) && (forall|k: int|
            last < k < calls.len() ==> !publishes_fs(calls[k])) ==> after_all(s, calls).fs
            == calls[last]->config.fs,
    decreases calls.len(),
{
    let next = after(s, calls[0]);
    let rest = calls.skip(1);
    if last == 0 {
        lemma_unpublished_stays(next, rest);
    } else {
        lemma_latest_wins(next, rest, last - 1);
    }
}

/// A channel on which nothing is published keeps its snapshot, and the
/// capacity of the event bus never changes.
pub proof fn lemma_unpublished_stays(s: Supervisor, calls: Seq<Call>)
    ensures
        (forall|k: int| 0 <= k < calls.len() ==> !publishes_action(calls[k])) ==> after_all(
            s,
            calls,
        ).action == s.action,
        (forall|k: int| 0 <= k < calls.len() ==> !publishes_fs(calls[k])) ==> after_all(s, calls).fs
            == s.fs,
        after_all(s, calls).event_capacity == s.event_capacity,
    decreases calls.len(),
{
    if calls.len() > 0 {
        let rest = calls.skip(1);
        lemma_unpublished_stays(after(s, calls[0]), rest);
    }
}

} // verus!
