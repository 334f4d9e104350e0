use tailspin::error::{interpret_wait, RunError, WaitOutcome};
use tailspin::orchestrator::{Orchestrator, Phase, ReadEvent, SourceFault, StepActions};
use tailspin::sink::SinkBuffer;
use tailspin::source::{
    child_interrupt_policy, classify_child_exit, ChildEnd, InterruptDisposition, SourceKind,
};

fn line(s: &str) -> ReadEvent {
    ReadEvent::Line(String::from(s))
}

#[test]
fn three_line_file_drain() {
    let mut orch = Orchestrator::new(false);
    for l in ["a", "b", "c"] {
        let out = orch.on_event(line(l));
        assert!(!out.fire_signal);
        assert!(!out.stop);
        assert_eq!(out.failure, None);
        assert_eq!(out.wrote, Some(format!("{}\n", l)));
    }
    let out = orch.on_event(ReadEvent::NoMoreData);
    assert!(out.fire_signal);
    assert!(out.stop);
    assert_eq!(out.failure, None);
    assert_eq!(out.wrote, None);
    assert_eq!(orch.phase(), Phase::Drained);
    assert!(orch.signal_fired());
    assert_eq!(orch.sink().len(), 3);
    assert_eq!(orch.sink().contents(), "a\nb\nc\n");
}

#[test]
fn empty_stdin_drain() {
    let mut orch = Orchestrator::new(false);
    let out = orch.on_event(ReadEvent::NoMoreData);
    assert!(out.fire_signal);
    assert!(out.stop);
    assert_eq!(out.failure, None);
    assert_eq!(orch.sink().len(), 0);
    assert_eq!(orch.sink().contents(), "");
    assert_eq!(orch.phase(), Phase::Drained);
}

#[test]
fn follow_appends_after_first_drain() {
    let mut orch = Orchestrator::new(true);
    orch.on_event(line("x"));
    let out = orch.on_event(ReadEvent::NoMoreData);
    assert!(out.fire_signal);
    assert!(!out.stop);
    assert_eq!(orch.phase(), Phase::Following);
    orch.on_event(line("y"));
    orch.on_event(line("z"));
    assert_eq!(orch.sink().contents(), "x\ny\nz\n");
    assert_eq!(orch.sink().record_at(0), "x\n");
    assert_eq!(orch.sink().record_at(1), "y\n");
    assert_eq!(orch.sink().record_at(2), "z\n");
}

#[test]
fn signal_fires_once_across_drain_and_fault() {
    let mut orch = Orchestrator::new(true);
    let first = orch.on_event(ReadEvent::NoMoreData);
    assert!(first.fire_signal);
    let second = orch.on_event(ReadEvent::NoMoreData);
    assert!(!second.fire_signal);
    let fault = orch.on_event(ReadEvent::Fault(SourceFault::Read));
    assert!(!fault.fire_signal);
    assert!(fault.stop);
    assert_eq!(fault.failure, Some(RunError::StreamFault));
    assert_eq!(orch.phase(), Phase::Failed);
}

#[test]
fn child_exit_fault_keeps_lines() {
    let mut orch = Orchestrator::new(true);
    orch.on_event(line("k1"));
    orch.on_event(line("k2"));
    let out = orch.on_event(ReadEvent::Fault(SourceFault::ChildExit(3)));
    assert!(out.fire_signal);
    assert!(out.stop);
    assert_eq!(out.failure, Some(RunError::ChildExitFault(3)));
    assert_eq!(orch.phase(), Phase::Failed);
    assert_eq!(orch.sink().contents(), "k1\nk2\n");
}

#[test]
fn dump_twice_is_identical() {
    let drain = || {
        let mut orch = Orchestrator::new(false);
        orch.on_event(line("one"));
        orch.on_event(line("two"));
        orch.on_event(ReadEvent::NoMoreData);
        orch.sink().contents()
    };
    let first = drain();
    let second = drain();
    assert_eq!(first, second);
    let mut orch = Orchestrator::new(false);
    orch.on_event(line("again"));
    orch.on_event(ReadEvent::NoMoreData);
    assert_eq!(orch.sink().contents(), orch.sink().contents());
}

#[test]
fn interrupt_never_reaches_child_by_itself() {
    let command = SourceKind::Command { command_line: String::from("make build") };
    assert_eq!(child_interrupt_policy(&command), InterruptDisposition::ShieldChild);
    let file = SourceKind::File { path: String::from("log.txt"), follow: false };
    assert_eq!(child_interrupt_policy(&file), InterruptDisposition::NoChild);
    let stdin = SourceKind::Stdin { follow: true };
    assert_eq!(child_interrupt_policy(&stdin), InterruptDisposition::NoChild);
}

#[test]
fn child_exit_classification() {
    assert_eq!(classify_child_exit(0), ChildEnd::NormalEnd);
    assert_eq!(classify_child_exit(3), ChildEnd::Fault(3));
    assert_eq!(classify_child_exit(-1), ChildEnd::Fault(-1));
}

#[test]
fn broken_signal_is_fatal() {
    assert_eq!(interpret_wait(WaitOutcome::Drained), Ok(()));
    assert_eq!(
        interpret_wait(WaitOutcome::ChannelClosed),
        Err(RunError::SignalBroken)
    );
}

#[test]
fn error_messages_name_each_failure() {
    assert_eq!(
        RunError::SourceUnavailable.message(),
        "source is missing or cannot be opened"
    );
    assert_eq!(
        RunError::StreamFault.message(),
        "I/O fault while reading or writing the stream"
    );
    assert_eq!(
        RunError::ChildExitFault(2).message(),
        "command exited with a non-zero status"
    );
    assert_eq!(
        RunError::SignalBroken.message(),
        "producer ended before the backlog was drained"
    );
}

#[test]
fn sink_preserves_order_and_content() {
    let mut sink = SinkBuffer::new();
    sink.append(String::from("first\n"));
    sink.append(String::from("second\n"));
    assert_eq!(sink.len(), 2);
    assert_eq!(sink.record_at(0), "first\n");
    assert_eq!(sink.record_at(1), "second\n");
    assert_eq!(sink.contents(), "first\nsecond\n");
}

#[test]
fn line_actions_mirror_the_record() {
    let mut orch = Orchestrator::new(false);
    let out: StepActions = orch.on_event(line("hello"));
    assert_eq!(out.wrote.as_deref(), Some("hello\n"));
    assert_eq!(orch.sink().record_at(0), "hello\n");
}
