//! The tracer loop as a state machine: from the session's state and the next
//! stop of the traced child, the next state, what to report and what to do.
use vstd::prelude::*;
use crate::catalog::{catalog_name, syscall_name};
use crate::filter::{name_view, TraceSpec, TraceSpecView};

verus! {

/// The exit code used when the traced child's own status is unknown, and
/// when the session is aborted.
pub const FAILURE_CODE: i32 = 1;

/// Whether a system call stop is the call's entry or its exit.
#[derive(PartialEq, Eq, Structural, Debug, Clone, Copy)]
pub enum Phase {
    Entry,
    Exit,
}

/// The other phase.
pub open spec fn toggled(p: Phase) -> Phase {
    match p {
        Phase::Entry => Phase::Exit,
        Phase::Exit => Phase::Entry,
    }
}

impl Phase {
    /// The other phase.
    pub fn toggle(self) -> (r: Phase)
        ensures
            r == toggled(self),
    {
        match self {
            Phase::Entry => Phase::Exit,
            Phase::Exit => Phase::Entry,
        }
    }
}

/// What a wait on the traced child reported.
#[derive(PartialEq, Eq, Structural, Debug, Clone, Copy)]
pub enum StopEvent {
    /// The child exited with this status.
    Exited { status: i32 },
    /// The child was killed by this signal.
    Killed { signal: i32 },
    /// The child stopped at a system call boundary; `nr` is the number read
    /// from the register that carries it.
    SyscallStop { nr: u64 },
    /// The child stopped on the delivery of this signal.
    SignalStop { signal: i32 },
    /// The child stopped in a successful exec of the program.
    Exec,
    /// Another stop or notice of the child's life (another tracing event,
    /// a continue).
    Lifecycle,
    /// A notification that the loop cannot interpret.
    Unsupported,
}

/// Where a session stands.
#[derive(PartialEq, Eq, Structural, Debug, Clone, Copy)]
pub enum SessionState {
    /// The child has not yet shown the stop it raises before running the
    /// program.
    AwaitingInitialStop,
    /// The child runs on, untraced at system calls, up to the exec of the
    /// program; a child that never gets there is reported on not at all.
    AwaitingExec,
    /// The exec has happened; the next system call stop is the exit of that
    /// exec, whose entry came before tracing, and is not reported.
    LeavingExec,
    /// The child runs the program; `phase` is the phase of its next system
    /// call stop.
    Running { phase: Phase },
    /// The child has ended; `code` is the tracer's exit code.
    Terminated { code: i32 },
    /// The session was aborted on a notification it cannot interpret.
    Failed,
}

/// What the tracer does after a stop.
#[derive(PartialEq, Eq, Structural, Debug, Clone, Copy)]
pub enum Command {
    /// Set the tracing options (system call stops told apart from signal
    /// stops, a stop at exec), then continue the child without system call
    /// stops.
    Configure,
    /// Continue the child without system call stops.
    Continue,
    /// Continue it likewise and deliver this signal to it.
    ContinueWithSignal { signal: i32 },
    /// Resume the child up to its next system call boundary.
    Resume,
    /// Resume it likewise and deliver this signal to it.
    ResumeWithSignal { signal: i32 },
    /// The session is over: exit with this code.
    Finish { code: i32 },
    /// The session cannot go on: exit with `FAILURE_CODE`.
    Abort,
}

/// One reported system call stop.
#[derive(Debug, Clone, Copy)]
pub struct SyscallEvent {
    pub nr: u64,
    /// The name from the system call table; `None` for an unnamed number.
    pub name: Option<&'static str>,
    pub phase: Phase,
}

/// What a step of the loop hands back: a report, if the stop is one to
/// report, and the command to carry out.
#[derive(Debug, Clone, Copy)]
pub struct Step {
    pub report: Option<SyscallEvent>,
    pub command: Command,
}

/// The exit code for a child killed by `signal`: 128 plus the signal where
/// that is a signal number, else `FAILURE_CODE`.
pub open spec fn killed_code(signal: i32) -> i32 {
    if 0 < signal < 128 {
        (128 + signal) as i32
    } else {
        FAILURE_CODE
    }
}

/// The state after a stop.
pub open spec fn next_state(s: SessionState, ev: StopEvent) -> SessionState {
    match (s, ev) {
        (SessionState::Terminated { .. }, _) => s,
        (SessionState::Failed, _) => s,
        (_, StopEvent::Exited { status }) => SessionState::Terminated { code: status },
        (_, StopEvent::Killed { signal }) => SessionState::Terminated { code: killed_code(signal) },
        (_, StopEvent::Unsupported) => SessionState::Failed,
        (SessionState::AwaitingInitialStop, StopEvent::SignalStop { .. }) => SessionState::AwaitingExec,
        (SessionState::AwaitingInitialStop, _) => SessionState::Failed,
        (SessionState::AwaitingExec, StopEvent::Exec) => SessionState::LeavingExec,
        (SessionState::AwaitingExec, StopEvent::SyscallStop { .. }) => SessionState::Failed,
        (SessionState::AwaitingExec, _) => s,
        (SessionState::LeavingExec, StopEvent::SyscallStop { .. }) => SessionState::Running { phase: Phase::Entry },
        (SessionState::LeavingExec, _) => s,
        (SessionState::Running { phase }, StopEvent::SyscallStop { .. }) => SessionState::Running { phase: toggled(phase) },
        (SessionState::Running { .. }, _) => s,
    }
}

/// The command after a stop.
pub open spec fn command_of(s: SessionState, ev: StopEvent) -> Command {
    match (s, ev) {
        (SessionState::Terminated { code }, _) => Command::Finish { code },
        (SessionState::Failed, _) => Command::Abort,
        (_, StopEvent::Exited { status }) => Command::Finish { code: status },
        (_, StopEvent::Killed { signal }) => Command::Finish { code: killed_code(signal) },
        (_, StopEvent::Unsupported) => Command::Abort,
        (SessionState::AwaitingInitialStop, StopEvent::SignalStop { .. }) => Command::Configure,
        (SessionState::AwaitingInitialStop, _) => Command::Abort,
        (SessionState::AwaitingExec, StopEvent::Exec) => Command::Resume,
        (SessionState::AwaitingExec, StopEvent::SyscallStop { .. }) => Command::Abort,
        (SessionState::AwaitingExec, StopEvent::SignalStop { signal }) => Command::ContinueWithSignal { signal },
        (SessionState::AwaitingExec, _) => Command::Continue,
        (_, StopEvent::SignalStop { signal }) => Command::ResumeWithSignal { signal },
        (_, _) => Command::Resume,
    }
}

/// The report of a stop, as a number and a phase: a system call stop of a
/// running child whose name the filter reports.
pub open spec fn reported(s: SessionState, v: TraceSpecView, ev: StopEvent) -> Option<(u64, Phase)> {
    match (s, ev) {
        (SessionState::Running { phase }, StopEvent::SyscallStop { nr }) => {
            if v.traces(catalog_name(nr)) {
                Some((nr, phase))
            } else {
                None
            }
        },
        _ => None,
    }
}

/// A report as a number and a phase.
pub open spec fn event_view(e: SyscallEvent) -> (u64, Phase) {
    (e.nr, e.phase)
}

/// The report carries the name that the table gives to its number.
pub open spec fn named_right(e: SyscallEvent) -> bool {
    name_view(e.name) == catalog_name(e.nr)
}

/// An optional report is the one described.
pub open spec fn report_is(r: Option<SyscallEvent>, want: Option<(u64, Phase)>) -> bool {
    match r {
        Some(e) => want == Some(event_view(e)) && named_right(e),
        None => want is None,
    }
}

/// The reports of a sequence of stops, from state `s` on.
pub open spec fn run(s: SessionState, v: TraceSpecView, evs: Seq<StopEvent>) -> Seq<(u64, Phase)>
    decreases evs.len(),
{
    if evs.len() == 0 {
        Seq::empty()
    } else {
        let first = match reported(s, v, evs[0]) {
            Some(x) => seq![x],
            None => Seq::empty(),
        };
        first + run(next_state(s, evs[0]), v, evs.drop_first())
    }
}

/// The state after a sequence of stops.
pub open spec fn state_after(s: SessionState, evs: Seq<StopEvent>) -> SessionState
    decreases evs.len(),
{
    if evs.len() == 0 {
        s
    } else {
        state_after(next_state(s, evs[0]), evs.drop_first())
    }
}

/// One tracing session: the traced child, where it stands, and the filter.
pub struct TracerSession {
    pub pid: i32,
    pub state: SessionState,
    pub filter: TraceSpec,
}

impl TracerSession {
    /// A session on child `pid` that has not yet seen the child's first
    /// stop.
    pub fn new(pid: i32, filter: TraceSpec) -> (r: TracerSession)
        ensures
            r.pid == pid,
            r.state == SessionState::AwaitingInitialStop,
            r.filter@ == filter@,
    {
        TracerSession { pid, state: SessionState::AwaitingInitialStop, filter }
    }

    /// Takes one stop of the child: moves to the next state and says what
    /// to report and what to do.
    pub fn step(&mut self, ev: StopEvent) -> (r: Step)
        ensures
            final(self).pid == old(self).pid,
            final(self).filter@ == old(self).filter@,
            final(self).state == next_state(old(self).state, ev),
            r.command == command_of(old(self).state, ev),
            report_is(r.report, reported(old(self).state, old(self).filter@, ev)),
    {
        let report = match (self.state, ev) {
            (SessionState::Running { phase }, StopEvent::SyscallStop { nr }) => {
                let name = syscall_name(nr);
                if self.filter.should_trace(name) {
                    Some(SyscallEvent { nr, name, phase })
                } else {
                    None
                }
            },
            _ => None,
        };
        let (next, command) = transition(self.state, ev);
        self.state = next;
        Step { report, command }
    }

    /// Takes a sequence of stops in order, collecting the reports.
    pub fn feed(&mut self, events: &Vec<StopEvent>) -> (r: Vec<SyscallEvent>)
        ensures
            final(self).pid == old(self).pid,
            final(self).filter@ == old(self).filter@,
            final(self).state == state_after(old(self).state, events@),
            r@.map_values(|e: SyscallEvent| event_view(e)) == run(old(self).state, old(self).filter@, events@),
            forall|i: int| 0 <= i < r@.len() ==> named_right(#[trigger] r@[i]),
    {
        let ghost s0 = self.state;
        let ghost v = self.filter@;
        let mut r: Vec<SyscallEvent> = Vec::new();
        let mut i: usize = 0;
        assert(events@.subrange(0, events@.len() as int) =~= events@);
        while i < events.len()
            invariant
                i <= events@.len(),
                self.pid == old(self).pid,
                self.filter@ == v,
                v == old(self).filter@,
                s0 == old(self).state,
                r@.map_values(|e: SyscallEvent| event_view(e)) + run(self.state, v, events@.subrange(i as int, events@.len() as int))
                    == run(s0, v, events@),
                state_after(self.state, events@.subrange(i as int, events@.len() as int)) == state_after(s0, events@),
                forall|k: int| 0 <= k < r@.len() ==> named_right(#[trigger] r@[k]),
            decreases events@.len() - i,
        {
            let ghost s = self.state;
            let ghost rest = events@.subrange(i as int, events@.len() as int);
            assert(rest.drop_first() =~= events@.subrange(i + 1, events@.len() as int));
            assert(rest[0] == events@[i as int]);
            let step = self.step(events[i]);
            let ghost before = r@.map_values(|e: SyscallEvent| event_view(e));
            match step.report {
                Some(e) => {
                    r.push(e);
                    assert(r@.map_values(|e: SyscallEvent| event_view(e)) =~= before + seq![event_view(e)]);
                },
                None => {},
            }
            i = i + 1;
        }
        assert(events@.subrange(i as int, events@.len() as int) =~= Seq::<StopEvent>::empty());
        assert(r@.map_values(|e: SyscallEvent| event_view(e)) + Seq::<(u64, Phase)>::empty() =~= r@.map_values(|e: SyscallEvent| event_view(e)));
        r
    }
}

/// The state and the command after a stop.
pub fn transition(s: SessionState, ev: StopEvent) -> (r: (SessionState, Command))
    ensures
        r.0 == next_state(s, ev),
        r.1 == command_of(s, ev),
{
    match (s, ev) {
        (SessionState::Terminated { code }, _) => (s, Command::Finish { code }),
        (SessionState::Failed, _) => (s, Command::Abort),
        (_, StopEvent::Exited { status }) => (SessionState::Terminated { code: status }, Command::Finish { code: status }),
        (_, StopEvent::Killed { signal }) => {
            let code = exit_code_for_signal(signal);
            (SessionState::Terminated { code }, Command::Finish { code })
        },
        (_, StopEvent::Unsupported) => (SessionState::Failed, Command::Abort),
        (SessionState::AwaitingInitialStop, StopEvent::SignalStop { .. }) => (SessionState::AwaitingExec, Command::Configure),
        (SessionState::AwaitingInitialStop, _) => (SessionState::Failed, Command::Abort),
        (SessionState::AwaitingExec, StopEvent::Exec) => (SessionState::LeavingExec, Command::Resume),
        (SessionState::AwaitingExec, StopEvent::SyscallStop { .. }) => (SessionState::Failed, Command::Abort),
        (SessionState::AwaitingExec, StopEvent::SignalStop { signal }) => (s, Command::ContinueWithSignal { signal }),
        (SessionState::AwaitingExec, _) => (s, Command::Continue),
        (SessionState::LeavingExec, StopEvent::SyscallStop { .. }) => (SessionState::Running { phase: Phase::Entry }, Command::Resume),
        (SessionState::Running { phase }, StopEvent::SyscallStop { .. }) => (SessionState::Running { phase: phase.toggle() }, Command::Resume),
        (_, StopEvent::SignalStop { signal }) => (s, Command::ResumeWithSignal { signal }),
        (_, _) => (s, Command::Resume),
    }
}

/// The exit code for a child killed by `signal`.
pub fn exit_code_for_signal(signal: i32) -> (r: i32)
    ensures
        r == killed_code(signal),
{
    if 0 < signal && signal < 128 {
        128 + signal
    } else {
        FAILURE_CODE
    }
}

} // verus!
