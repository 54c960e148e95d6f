//! Which end of which channel goes to which worker.
//!
//! The supervisor makes the event bus and the configuration channels when it
//! is made itself, and hands the ends that it does not keep to the main
//! task. The main task makes the error bus when it starts, and gives every
//! worker the ends that drive it.

use vstd::prelude::*;
use std::sync::Arc;
use crate::channel::{another_sender, error_bus, error_capacity};
use crate::config::{valid_channel_size, ActionConfig, FsConfig, InitConfig};
use crate::error::RuntimeError;
use crate::event::Event;

verus! {

/// What the main task is made from: the ends of the channels that the
/// workers use, the start gate, and the configuration set at construction,
/// the error handler with it.
#[derive(Debug)]
pub struct TaskParts<H> {
    pub init: InitConfig<H>,
    /// The start gate. The main task waits on it before it spawns anything.
    pub start_lock: Arc<tokio::sync::Notify>,
    /// Where the action worker finds its snapshot.
    pub action_config: tokio::sync::watch::Receiver<ActionConfig>,
    /// Where the filesystem worker finds its snapshot.
    pub fs_config: tokio::sync::watch::Receiver<FsConfig>,
    /// A sender of the event bus.
    pub event_input: tokio::sync::mpsc::Sender<Event>,
    /// The consuming end of the event bus.
    pub events: tokio::sync::mpsc::Receiver<Event>,
}

/// What drives the action worker. It consumes the event bus, and can put
/// events of its own on it.
#[derive(Debug)]
pub struct ActionEnds {
    pub config: tokio::sync::watch::Receiver<ActionConfig>,
    pub errors: tokio::sync::mpsc::Sender<RuntimeError>,
    pub events: tokio::sync::mpsc::Sender<Event>,
    pub input: tokio::sync::mpsc::Receiver<Event>,
}

/// What drives the filesystem worker.
#[derive(Debug)]
pub struct FsEnds {
    pub config: tokio::sync::watch::Receiver<FsConfig>,
    pub errors: tokio::sync::mpsc::Sender<RuntimeError>,
    pub events: tokio::sync::mpsc::Sender<Event>,
}

/// What drives the signal source.
#[derive(Debug)]
pub struct SignalEnds {
    pub errors: tokio::sync::mpsc::Sender<RuntimeError>,
    pub events: tokio::sync::mpsc::Sender<Event>,
}

/// What drives the error hook: the consuming end of the error bus, and the
/// handler.
#[derive(Debug)]
pub struct HookEnds<H> {
    pub errors: tokio::sync::mpsc::Receiver<RuntimeError>,
    pub handler: H,
}

/// The four workers' ends.
#[derive(Debug)]
pub struct WorkerEnds<H> {
    pub action: ActionEnds,
    pub error_hook: HookEnds<H>,
    pub fs: FsEnds,
    pub signal: SignalEnds,
}

impl<H> TaskParts<H> {
    /// Makes the error bus and gives every worker its ends.
    ///
    /// The configuration receivers, the consuming end of the event bus and
    /// the handler each go to the one worker they are for. Every worker but
    /// the error hook gets a sender of the error bus and a sender of the
    /// event bus.
    pub fn wire(self) -> (ends: WorkerEnds<H>)
        requires
            valid_channel_size(self.init.error_channel_size),
        ensures
            ends.action.config == self.action_config,
            ends.action.input == self.events,
            ends.fs.config == self.fs_config,
            ends.error_hook.handler == self.init.error_handler,
            ends.signal.events == self.event_input,
            error_capacity(ends.signal.errors) == self.init.error_channel_size,
    {
        let (errors_in, errors) = error_bus(self.init.error_channel_size);
        let action = ActionEnds {
            config: self.action_config,
            errors: another_sender(&errors_in),
            events: another_sender(&self.event_input),
            input: self.events,
        };
        let fs = FsEnds {
            config: self.fs_config,
            errors: another_sender(&errors_in),
            events: another_sender(&self.event_input),
        };
        let signal = SignalEnds { errors: errors_in, events: self.event_input };
        let error_hook = HookEnds { errors, handler: self.init.error_handler };
        WorkerEnds { action, error_hook, fs, signal }
    }
}

} // verus!
