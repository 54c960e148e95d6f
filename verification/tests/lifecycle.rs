use watchexec::config::{ActionConfig, FsConfig};
use watchexec::error::{CriticalError, ReconfigError, RuntimeError};
use watchexec::event::Event;
use watchexec::hook::{error_hook, HookStep};
use watchexec::lifecycle::{advance, flatten, settle, Directive, Phase, Wake};

/// The failure that the runtime reports for a task that was aborted.
fn join_error() -> tokio::task::JoinError {
    let rt = tokio::runtime::Builder::new_current_thread().build().unwrap();
    let task = rt.spawn(std::future::pending::<()>());
    task.abort();
    rt.block_on(task).unwrap_err()
}

#[test]
fn flatten_keeps_the_result_of_a_worker_that_ran_to_its_end() {
    assert!(matches!(flatten(Ok(Ok(()))), Ok(())));
    assert!(matches!(flatten(Ok(Err(CriticalError::Exit))), Err(CriticalError::Exit)));
    let event = Event::default();
    match flatten(Ok(Err(CriticalError::EventChannelSend(event.clone())))) {
        Err(CriticalError::EventChannelSend(back)) => assert_eq!(back, event),
        other => panic!("unexpected: {:?}", other),
    }
}

#[test]
fn flatten_turns_a_worker_that_did_not_end_into_a_critical_error() {
    match flatten(Err(join_error())) {
        Err(CriticalError::MainTaskJoin(e)) => assert!(e.is_cancelled()),
        other => panic!("unexpected: {:?}", other),
    }
}

#[test]
fn settle_erases_the_graceful_exit_and_nothing_else() {
    assert!(matches!(settle(Err(CriticalError::Exit)), Ok(())));
    assert!(matches!(settle(Ok(())), Ok(())));
    assert!(matches!(
        settle(Err(CriticalError::MainTaskJoin(join_error()))),
        Err(CriticalError::MainTaskJoin(_))
    ));
    assert!(matches!(
        settle(Err(CriticalError::EventChannelSend(Event::default()))),
        Err(CriticalError::EventChannelSend(_))
    ));
}

#[test]
fn armed_task_spawns_the_workers_when_the_gate_is_released() {
    let (phase, directive) = advance(Phase::Armed, Wake::Released);
    assert_eq!(phase, Phase::Running);
    assert!(matches!(directive, Directive::Spawn));
}

#[test]
fn armed_task_ignores_a_join() {
    let (phase, directive) = advance(Phase::Armed, Wake::Joined(Ok(Ok(()))));
    assert_eq!(phase, Phase::Armed);
    assert!(matches!(directive, Directive::Wait));
}

#[test]
fn running_task_ignores_a_second_release() {
    let (phase, directive) = advance(Phase::Running, Wake::Released);
    assert_eq!(phase, Phase::Running);
    assert!(matches!(directive, Directive::Wait));
}

#[test]
fn running_task_ends_with_the_first_worker_that_ends() {
    let (phase, directive) = advance(Phase::Running, Wake::Joined(Ok(Ok(()))));
    assert_eq!(phase, Phase::Finished);
    assert!(matches!(directive, Directive::Complete(Ok(()))));

    let (phase, directive) = advance(Phase::Running, Wake::Joined(Err(join_error())));
    assert_eq!(phase, Phase::Finished);
    assert!(matches!(directive, Directive::Complete(Err(CriticalError::MainTaskJoin(_)))));

    let failed = Wake::Joined(Ok(Err(CriticalError::EventChannelSend(Event::default()))));
    let (phase, directive) = advance(Phase::Running, failed);
    assert_eq!(phase, Phase::Finished);
    assert!(matches!(directive, Directive::Complete(Err(CriticalError::EventChannelSend(_)))));
}

#[test]
fn finished_task_ignores_everything() {
    let (phase, directive) = advance(Phase::Finished, Wake::Released);
    assert_eq!(phase, Phase::Finished);
    assert!(matches!(directive, Directive::Wait));
    let (phase, directive) = advance(Phase::Finished, Wake::Joined(Ok(Err(CriticalError::Exit))));
    assert_eq!(phase, Phase::Finished);
    assert!(matches!(directive, Directive::Wait));
}

#[test]
fn graceful_exit_request_ends_the_main_task_in_success() {
    let mut handler = ();
    let verdict = match error_hook(&mut handler, Some(RuntimeError::Exit)) {
        HookStep::Finish(verdict) => verdict,
        HookStep::Continue => panic!("the hook went on after an exit request"),
    };
    assert!(matches!(verdict, Err(CriticalError::Exit)));
    let (phase, directive) = advance(Phase::Running, Wake::Joined(Ok(verdict)));
    assert_eq!(phase, Phase::Finished);
    assert!(matches!(directive, Directive::Complete(Ok(()))));
}

#[test]
fn workers_are_spawned_once_and_the_first_to_end_decides() {
    let wakes = vec![
        Wake::Released,
        Wake::Released,
        Wake::Joined(Ok(Err(CriticalError::EventChannelSend(Event::default())))),
        Wake::Joined(Ok(Ok(()))),
        Wake::Released,
        Wake::Joined(Err(join_error())),
    ];
    let mut phase = Phase::Armed;
    let mut spawns = 0;
    let mut results = Vec::new();
    for wake in wakes {
        let (next, directive) = advance(phase, wake);
        phase = next;
        match directive {
            Directive::Wait => {}
            Directive::Spawn => spawns += 1,
            Directive::Complete(result) => results.push(result),
        }
    }
    assert_eq!(phase, Phase::Finished);
    assert_eq!(spawns, 1);
    assert_eq!(results.len(), 1);
    assert!(matches!(results[0], Err(CriticalError::EventChannelSend(_))));
}

#[test]
fn refused_configuration_becomes_a_critical_error() {
    let refused = ReconfigError::ActionWatch(ActionConfig { throttle_ms: 4 });
    match CriticalError::from(refused.clone()) {
        CriticalError::Reconfig(inner) => assert_eq!(inner, refused),
        other => panic!("unexpected: {:?}", other),
    }
    let refused = ReconfigError::FsWatch(FsConfig { pathset: vec![String::from("a")] });
    match settle(Err(CriticalError::from(refused.clone()))) {
        Err(CriticalError::Reconfig(inner)) => assert_eq!(inner, refused),
        other => panic!("unexpected: {:?}", other),
    }
}
