use sidecar_supervisor::lifecycle::{
    Action, Controller, Failure, HandleSlot, LifecycleState, POLL_INTERVAL_MS, SERVER_TIMEOUT_MS,
    WARM_UP_MS,
};
use sidecar_supervisor::log_sink::{LogBuffer, OutputEvent, ReaderStep, StreamTag, MAX_LOG_ENTRIES};

#[test]
fn reachable_sidecar_is_reused() {
    let mut c = Controller::new();
    assert_eq!(c.state(), LifecycleState::Probing);
    assert_eq!(c.on_initial_probe(true), Action::Present);
    assert_eq!(c.state(), LifecycleState::Ready);
    assert!(!c.has_handle());
    assert_eq!(c.begin_shutdown(), Action::Done);
}

#[test]
fn spawn_then_ready() {
    let mut c = Controller::new();
    assert_eq!(c.on_initial_probe(false), Action::Spawn);
    assert_eq!(c.state(), LifecycleState::Spawning);
    assert_eq!(c.on_spawn_result(true), Action::Poll);
    assert!(c.has_handle());
    assert_eq!(c.poll(0), Action::Probe);
    assert_eq!(c.on_ready_probe(false), Action::Sleep(POLL_INTERVAL_MS));
    assert_eq!(c.poll(50), Action::Probe);
    assert_eq!(c.on_ready_probe(true), Action::WarmUp(WARM_UP_MS));
    assert_eq!(c.state(), LifecycleState::Ready);
    assert_eq!(c.on_interface_result(true), Action::Done);
    assert_eq!(c.begin_shutdown(), Action::Terminate);
    assert_eq!(c.state(), LifecycleState::ShuttingDown);
    c.finish_shutdown();
    assert_eq!(c.state(), LifecycleState::Terminated);
    assert!(!c.has_handle());
}

#[test]
fn spawn_failure_fails_run() {
    let mut c = Controller::new();
    c.on_initial_probe(false);
    assert_eq!(c.on_spawn_result(false), Action::Exit(1));
    assert_eq!(c.state(), LifecycleState::Failed(Failure::SpawnFailed));
}

#[test]
fn timeout_is_exact() {
    let mut c = Controller::new();
    c.on_initial_probe(false);
    c.on_spawn_result(true);
    assert_eq!(c.poll(SERVER_TIMEOUT_MS), Action::Probe);
    assert_eq!(c.state(), LifecycleState::AwaitingReady);
    assert_eq!(c.poll(SERVER_TIMEOUT_MS + 1), Action::Exit(1));
    assert_eq!(c.state(), LifecycleState::Failed(Failure::ReadinessTimeout));
}

#[test]
fn timeout_reached_within_one_interval() {
    let mut c = Controller::new();
    c.on_initial_probe(false);
    c.on_spawn_result(true);
    let mut t: u64 = 0;
    loop {
        match c.poll(t) {
            Action::Probe => match c.on_ready_probe(false) {
                Action::Sleep(ms) => t += ms,
                other => panic!("unexpected {:?}", other),
            },
            Action::Exit(1) => break,
            other => panic!("unexpected {:?}", other),
        }
    }
    assert!(t > SERVER_TIMEOUT_MS);
    assert!(t <= SERVER_TIMEOUT_MS + POLL_INTERVAL_MS);
}

#[test]
fn interface_failure_fails_run() {
    let mut c = Controller::new();
    c.on_initial_probe(true);
    assert_eq!(c.on_interface_result(false), Action::Exit(1));
    assert_eq!(c.state(), LifecycleState::Failed(Failure::InterfaceFailed));
}

#[test]
fn termination_twice_is_harmless() {
    let mut slot = HandleSlot::new(Some(42u32));
    assert!(slot.is_tracked());
    assert_eq!(slot.take(), Some(42));
    assert!(!slot.is_tracked());
    assert_eq!(slot.take(), None);
    assert!(!slot.is_tracked());
    let mut empty: HandleSlot<u32> = HandleSlot::new(None);
    assert_eq!(empty.take(), None);
}

#[test]
fn log_keeps_newest_entries() {
    let mut log = LogBuffer::new();
    for i in 0..(MAX_LOG_ENTRIES + 50) {
        log.append(StreamTag::Stdout, &format!("{}\n", i));
    }
    assert_eq!(log.len(), MAX_LOG_ENTRIES);
    let mut expected = String::new();
    for i in 50..(MAX_LOG_ENTRIES + 50) {
        expected.push_str(&format!("[stdout] {}\n", i));
    }
    assert_eq!(log.snapshot(), expected);
}

#[test]
fn log_below_capacity_keeps_all() {
    let mut log = LogBuffer::new();
    assert_eq!(log.snapshot(), "");
    log.append(StreamTag::Stdout, "a\n");
    log.append(StreamTag::Stderr, "b\n");
    assert_eq!(log.len(), 2);
    assert_eq!(log.snapshot(), "[stdout] a\n[stderr] b\n");
}

#[test]
fn output_events_are_recorded() {
    let mut log = LogBuffer::new();
    match log.on_output(OutputEvent::Stdout(b"hello\n".to_vec())) {
        ReaderStep::Echo(StreamTag::Stdout, s) => assert_eq!(s, "hello\n"),
        _ => panic!("expected echo"),
    }
    match log.on_output(OutputEvent::Stderr(vec![0x6f, 0xff, 0x6b])) {
        ReaderStep::Echo(StreamTag::Stderr, s) => assert_eq!(s, "o\u{FFFD}k"),
        _ => panic!("expected echo"),
    }
    match log.on_output(OutputEvent::Error("broken pipe".to_string())) {
        ReaderStep::ReportError(m) => assert_eq!(m, "broken pipe"),
        _ => panic!("expected error report"),
    }
    assert!(matches!(log.on_output(OutputEvent::Other), ReaderStep::Continue));
    assert!(matches!(
        log.on_output(OutputEvent::Terminated(Some(0))),
        ReaderStep::Finished(Some(0))
    ));
    assert_eq!(log.snapshot(), "[stdout] hello\n[stderr] o\u{FFFD}k");
}
