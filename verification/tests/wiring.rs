use watchexec::channel::MainTask;
use watchexec::config::{ActionConfig, FsConfig, InitConfig, RuntimeConfig};
use watchexec::error::RuntimeError;
use watchexec::event::{Event, Tag};
use watchexec::handler::Handler;
use watchexec::supervisor::Sent;
use watchexec::wiring::{TaskParts, WorkerEnds};
use watchexec::Watchexec;

/// A handler that can be told apart from any other.
#[derive(Debug, PartialEq)]
struct Named(&'static str);

impl Handler for Named {
    fn handle(&mut self, _error: RuntimeError) -> Result<(), String> {
        Err(String::from(self.0))
    }
}

fn wired(error_channel_size: usize) -> (Watchexec, WorkerEnds<Named>) {
    let rt = tokio::runtime::Builder::new_current_thread().build().unwrap();
    let init = InitConfig { error_handler: Named("mine"), error_channel_size, event_channel_size: 2 };
    let runtime = RuntimeConfig {
        action: ActionConfig { throttle_ms: 30 },
        fs: FsConfig { pathset: vec![String::from("src")] },
    };
    let mut slot = None;
    let wx = Watchexec::new(init, runtime, |parts: TaskParts<Named>| -> MainTask {
        slot = Some(parts);
        rt.spawn(async { Ok(()) })
    });
    (wx, slot.unwrap().wire())
}

fn error(detail: &str) -> RuntimeError {
    RuntimeError::Handler { ctx: String::from("test"), err: String::from(detail) }
}

#[test]
fn error_bus_has_the_capacity_asked_for() {
    let (_wx, ends) = wired(3);
    assert_eq!(ends.signal.errors.max_capacity(), 3);
    assert_eq!(ends.action.errors.max_capacity(), 3);
    assert_eq!(ends.fs.errors.max_capacity(), 3);
}

#[test]
fn every_worker_reports_to_the_error_hook() {
    let (_wx, mut ends) = wired(3);
    assert!(ends.action.errors.try_send(error("from action")).is_ok());
    assert!(ends.fs.errors.try_send(error("from fs")).is_ok());
    assert!(ends.signal.errors.try_send(RuntimeError::Exit).is_ok());
    assert!(ends.signal.errors.try_send(error("one too many")).is_err());
    assert_eq!(ends.error_hook.errors.try_recv().unwrap(), error("from action"));
    assert_eq!(ends.error_hook.errors.try_recv().unwrap(), error("from fs"));
    assert_eq!(ends.error_hook.errors.try_recv().unwrap(), RuntimeError::Exit);
    assert!(ends.error_hook.errors.try_recv().is_err());
}

#[test]
fn error_hook_gets_the_handler_of_the_configuration() {
    let (_wx, ends) = wired(1);
    assert_eq!(ends.error_hook.handler, Named("mine"));
}

#[test]
fn every_event_source_feeds_the_action_worker() {
    let (wx, mut ends) = wired(1);
    assert_eq!(ends.fs.events.max_capacity(), 2);
    assert!(ends.fs.events.try_send(Event { tags: vec![Tag::Path(String::from("a"))] }).is_ok());
    assert!(ends.signal.events.try_send(Event { tags: vec![Tag::Signal(2)] }).is_ok());
    assert!(matches!(wx.send_event(Event::default()), Ok(Sent::Suspended(_))));
    assert!(ends.action.events.try_send(Event::default()).is_err());
    assert_eq!(
        ends.action.input.try_recv().unwrap(),
        Event { tags: vec![Tag::Path(String::from("a"))] }
    );
    assert_eq!(ends.action.input.try_recv().unwrap(), Event { tags: vec![Tag::Signal(2)] });
    assert!(ends.action.events.try_send(Event::default()).is_ok());
    assert_eq!(ends.action.input.try_recv().unwrap(), Event::default());
}

#[test]
fn workers_follow_the_configuration_channels() {
    let (mut wx, ends) = wired(1);
    assert_eq!(*ends.action.config.borrow(), ActionConfig { throttle_ms: 30 });
    assert_eq!(*ends.fs.config.borrow(), FsConfig { pathset: vec![String::from("src")] });
    let next = RuntimeConfig {
        action: ActionConfig { throttle_ms: 60 },
        fs: FsConfig { pathset: vec![] },
    };
    assert_eq!(wx.reconfigure(next), Ok(()));
    assert_eq!(*ends.action.config.borrow(), ActionConfig { throttle_ms: 60 });
    assert_eq!(*ends.fs.config.borrow(), FsConfig { pathset: vec![] });
}
