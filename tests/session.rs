use stracer::tracer::{exit_code_for_signal, FAILURE_CODE};
use stracer::{Command, Phase, SessionState, StopEvent, SyscallEvent, TraceSpec, TracerSession};

const SIGSTOP: i32 = 19;
const OPEN: u64 = 2;
const READ: u64 = 0;
const CLOSE: u64 = 3;
const EXECVE: u64 = 59;

/// A session past the child's first stop, the exec and the exec's exit.
fn started(spec: TraceSpec) -> TracerSession {
    let mut s = TracerSession::new(7, spec);
    assert_eq!(s.step(StopEvent::SignalStop { signal: SIGSTOP }).command, Command::Configure);
    assert_eq!(s.step(StopEvent::Exec).command, Command::Resume);
    let exit_of_exec = s.step(StopEvent::SyscallStop { nr: EXECVE });
    assert!(exit_of_exec.report.is_none());
    assert_eq!(exit_of_exec.command, Command::Resume);
    s
}

fn strings(v: &[&str]) -> Vec<String> {
    v.iter().map(|s| s.to_string()).collect()
}

/// The stops of a child that opens, reads and closes a file, then exits.
fn open_read_close() -> Vec<StopEvent> {
    vec![
        StopEvent::SignalStop { signal: SIGSTOP },
        StopEvent::Exec,
        StopEvent::SyscallStop { nr: EXECVE },
        StopEvent::SyscallStop { nr: OPEN },
        StopEvent::SyscallStop { nr: OPEN },
        StopEvent::SyscallStop { nr: READ },
        StopEvent::SyscallStop { nr: READ },
        StopEvent::SyscallStop { nr: CLOSE },
        StopEvent::SyscallStop { nr: CLOSE },
        StopEvent::Exited { status: 0 },
    ]
}

fn brief(r: &[SyscallEvent]) -> Vec<(Option<&'static str>, Phase)> {
    r.iter().map(|e| (e.name, e.phase)).collect()
}

#[test]
fn inclusion_reports_listed_calls_only() {
    let spec = TraceSpec::new(strings(&["open"]), vec![]).unwrap();
    let mut s = TracerSession::new(42, spec);
    let r = s.feed(&open_read_close());
    assert_eq!(brief(&r), vec![(Some("open"), Phase::Entry), (Some("open"), Phase::Exit)]);
    assert!(r.iter().all(|e| e.nr == OPEN));
    assert_eq!(s.state, SessionState::Terminated { code: 0 });
    assert_eq!(s.pid, 42);
}

#[test]
fn exclusion_reports_all_other_calls() {
    let spec = TraceSpec::new(vec![], strings(&["read"])).unwrap();
    let mut s = TracerSession::new(7, spec);
    let r = s.feed(&open_read_close());
    assert_eq!(
        brief(&r),
        vec![
            (Some("open"), Phase::Entry),
            (Some("open"), Phase::Exit),
            (Some("close"), Phase::Entry),
            (Some("close"), Phase::Exit),
        ]
    );
}

#[test]
fn trace_all_alternates_from_entry() {
    let mut s = TracerSession::new(7, TraceSpec::all());
    let r = s.feed(&open_read_close());
    assert_eq!(r.len(), 6);
    for (i, e) in r.iter().enumerate() {
        let want = if i % 2 == 0 { Phase::Entry } else { Phase::Exit };
        assert_eq!(e.phase, want);
    }
    let nrs: Vec<u64> = r.iter().map(|e| e.nr).collect();
    assert_eq!(nrs, vec![OPEN, OPEN, READ, READ, CLOSE, CLOSE]);
}

#[test]
fn signal_stops_keep_the_phase() {
    let mut s = started(TraceSpec::all());
    let r = s.feed(&vec![
        StopEvent::SyscallStop { nr: READ },
        StopEvent::SignalStop { signal: 10 },
        StopEvent::Lifecycle,
        StopEvent::SyscallStop { nr: READ },
    ]);
    assert_eq!(brief(&r), vec![(Some("read"), Phase::Entry), (Some("read"), Phase::Exit)]);
    assert_eq!(s.state, SessionState::Running { phase: Phase::Entry });
}

#[test]
fn same_stops_same_reports() {
    let spec = || TraceSpec::new(vec![], strings(&["read"])).unwrap();
    let mut a = TracerSession::new(1, spec());
    let mut b = TracerSession::new(2, spec());
    let ra = a.feed(&open_read_close());
    let rb = b.feed(&open_read_close());
    let key = |r: &[SyscallEvent]| r.iter().map(|e| (e.nr, e.name, e.phase)).collect::<Vec<_>>();
    assert_eq!(key(&ra), key(&rb));
    assert_eq!(a.state, b.state);
}

#[test]
fn failed_launch_reports_nothing() {
    let mut s = TracerSession::new(7, TraceSpec::all());
    let r = s.feed(&vec![StopEvent::SignalStop { signal: SIGSTOP }, StopEvent::Exited { status: 127 }]);
    assert!(r.is_empty());
    assert_eq!(s.state, SessionState::Terminated { code: 127 });
    assert_eq!(s.step(StopEvent::Lifecycle).command, Command::Finish { code: 127 });
}

#[test]
fn exit_before_first_stop() {
    let mut s = TracerSession::new(7, TraceSpec::all());
    let step = s.step(StopEvent::Exited { status: 1 });
    assert!(step.report.is_none());
    assert_eq!(step.command, Command::Finish { code: 1 });
}

#[test]
fn unnamed_number_reported_without_name() {
    let mut s = started(TraceSpec::all());
    let step = s.step(StopEvent::SyscallStop { nr: 9999 });
    assert_eq!(step.command, Command::Resume);
    let e = step.report.unwrap();
    assert_eq!((e.nr, e.name, e.phase), (9999, None, Phase::Entry));
    assert_eq!(s.state, SessionState::Running { phase: Phase::Exit });
}

#[test]
fn unnamed_number_skipped_under_inclusion() {
    let spec = TraceSpec::new(strings(&["open"]), vec![]).unwrap();
    let mut s = started(spec);
    let step = s.step(StopEvent::SyscallStop { nr: 9999 });
    assert!(step.report.is_none());
    assert_eq!(step.command, Command::Resume);
}

#[test]
fn unnamed_number_reported_under_exclusion() {
    let spec = TraceSpec::new(vec![], strings(&["read"])).unwrap();
    let mut s = started(spec);
    let step = s.step(StopEvent::SyscallStop { nr: 500 });
    assert_eq!(step.report.unwrap().name, None);
}

#[test]
fn signal_is_forwarded() {
    let mut s = started(TraceSpec::all());
    let step = s.step(StopEvent::SignalStop { signal: 10 });
    assert_eq!(step.command, Command::ResumeWithSignal { signal: 10 });
    assert!(step.report.is_none());
}

#[test]
fn killed_child_ends_session() {
    let mut s = started(TraceSpec::all());
    assert_eq!(s.step(StopEvent::Killed { signal: 9 }).command, Command::Finish { code: 137 });
    assert_eq!(s.state, SessionState::Terminated { code: 137 });
}

#[test]
fn exit_codes_for_signals() {
    assert_eq!(exit_code_for_signal(9), 137);
    assert_eq!(exit_code_for_signal(15), 143);
    assert_eq!(exit_code_for_signal(0), FAILURE_CODE);
    assert_eq!(exit_code_for_signal(-3), FAILURE_CODE);
    assert_eq!(exit_code_for_signal(200), FAILURE_CODE);
}

#[test]
fn unsupported_notice_aborts() {
    let mut s = started(TraceSpec::all());
    assert_eq!(s.step(StopEvent::Unsupported).command, Command::Abort);
    assert_eq!(s.state, SessionState::Failed);
    assert_eq!(s.step(StopEvent::SyscallStop { nr: READ }).command, Command::Abort);
}

#[test]
fn syscall_stop_before_first_stop_aborts() {
    let mut s = TracerSession::new(7, TraceSpec::all());
    assert_eq!(s.step(StopEvent::SyscallStop { nr: READ }).command, Command::Abort);
}

#[test]
fn phase_toggles() {
    assert_eq!(Phase::Entry.toggle(), Phase::Exit);
    assert_eq!(Phase::Exit.toggle(), Phase::Entry);
}

#[test]
fn failed_exec_attempt_reports_nothing() {
    // the child's own calls before a failed exec come as no system call stop
    let mut s = TracerSession::new(7, TraceSpec::all());
    let r = s.feed(&vec![
        StopEvent::SignalStop { signal: SIGSTOP },
        StopEvent::Lifecycle,
        StopEvent::Exited { status: 127 },
    ]);
    assert!(r.is_empty());
    assert_eq!(s.state, SessionState::Terminated { code: 127 });
}

#[test]
fn before_exec_the_child_is_continued() {
    let mut s = TracerSession::new(7, TraceSpec::all());
    s.step(StopEvent::SignalStop { signal: SIGSTOP });
    assert_eq!(s.state, SessionState::AwaitingExec);
    assert_eq!(s.step(StopEvent::SignalStop { signal: 10 }).command, Command::ContinueWithSignal { signal: 10 });
    assert_eq!(s.step(StopEvent::Lifecycle).command, Command::Continue);
    assert_eq!(s.state, SessionState::AwaitingExec);
    assert_eq!(s.step(StopEvent::Exec).command, Command::Resume);
    assert_eq!(s.state, SessionState::LeavingExec);
    assert_eq!(s.step(StopEvent::SignalStop { signal: 10 }).command, Command::ResumeWithSignal { signal: 10 });
    assert_eq!(s.state, SessionState::LeavingExec);
}

#[test]
fn syscall_stop_before_exec_aborts() {
    let mut s = TracerSession::new(7, TraceSpec::all());
    s.step(StopEvent::SignalStop { signal: SIGSTOP });
    assert_eq!(s.step(StopEvent::SyscallStop { nr: READ }).command, Command::Abort);
    assert_eq!(s.state, SessionState::Failed);
}
