//! What holds of every run of the tracer loop.
use vstd::prelude::*;
use crate::catalog::catalog_name;
use crate::filter::TraceSpecView;
use crate::tracer::{
    command_of, next_state, reported, run, toggled, Command, Phase, SessionState, StopEvent,
};

verus! {

/// A stop after which a running child is still running.
pub open spec fn is_live(e: StopEvent) -> bool {
    e is SyscallStop || e is SignalStop || e is Exec || e is Lifecycle
}

/// Every stop of the sequence is live.
pub open spec fn all_live(evs: Seq<StopEvent>) -> bool {
    forall|i: int| 0 <= i < evs.len() ==> is_live(#[trigger] evs[i])
}

/// The numbers of the system call stops of a sequence, in order.
pub open spec fn syscall_nrs(evs: Seq<StopEvent>) -> Seq<u64>
    decreases evs.len(),
{
    if evs.len() == 0 {
        Seq::empty()
    } else {
        let first = match evs[0] {
            StopEvent::SyscallStop { nr } => seq![nr],
            _ => Seq::empty(),
        };
        first + syscall_nrs(evs.drop_first())
    }
}

/// The numbers of the system call stops of a sequence whose names the
/// filter reports, in order.
pub open spec fn traced_nrs(v: TraceSpecView, evs: Seq<StopEvent>) -> Seq<u64>
    decreases evs.len(),
{
    if evs.len() == 0 {
        Seq::empty()
    } else {
        let first = match evs[0] {
            StopEvent::SyscallStop { nr } => if v.traces(catalog_name(nr)) {
                seq![nr]
            } else {
                Seq::empty()
            },
            _ => Seq::empty(),
        };
        first + traced_nrs(v, evs.drop_first())
    }
}

/// The numbers of a sequence of reports.
pub open spec fn nrs_of(xs: Seq<(u64, Phase)>) -> Seq<u64> {
    xs.map_values(|x: (u64, Phase)| x.0)
}

/// The phase `i` stops after one in phase `p`.
pub open spec fn phase_at(p: Phase, i: int) -> Phase {
    if i % 2 == 0 {
        p
    } else {
        toggled(p)
    }
}

/// Every reported stop is one whose name the filter reports: with an
/// inclusion list, only its names; with an exclusion list, none of its
/// names.
pub proof fn lemma_reports_pass_filter(s: SessionState, v: TraceSpecView, evs: Seq<StopEvent>)
    ensures
        forall|i: int| 0 <= i < run(s, v, evs).len() ==> v.traces(catalog_name(#[trigger] run(s, v, evs)[i].0)),
    decreases evs.len(),
{
    if evs.len() > 0 {
        lemma_reports_pass_filter(next_state(s, evs[0]), v, evs.drop_first());
    }
}

/// While the child runs, every system call stop whose name the filter
/// reports is reported, in the order of the stops, and nothing else is.
pub proof fn lemma_traced_stops_reported(p: Phase, v: TraceSpecView, evs: Seq<StopEvent>)
    requires
        all_live(evs),
    ensures
        nrs_of(run(SessionState::Running { phase: p }, v, evs)) == traced_nrs(v, evs),
    decreases evs.len(),
{
    if evs.len() > 0 {
        let s = SessionState::Running { phase: p };
        let next = next_state(s, evs[0]);
        assert(is_live(evs[0]));
        let p2 = if evs[0] is SyscallStop { toggled(p) } else { p };
        assert(next == SessionState::Running { phase: p2 });
        assert(all_live(evs.drop_first())) by {
            assert forall|i: int| 0 <= i < evs.drop_first().len() implies is_live(#[trigger] evs.drop_first()[i]) by {
                assert(evs.drop_first()[i] == evs[i + 1]);
            }
        }
        lemma_traced_stops_reported(p2, v, evs.drop_first());
        let first = match reported(s, v, evs[0]) {
            Some(x) => seq![x],
            None => Seq::empty(),
        };
        let rest = run(next, v, evs.drop_first());
        assert(nrs_of(first + rest) =~= nrs_of(first) + nrs_of(rest));
        assert(nrs_of(first) =~= match evs[0] {
            StopEvent::SyscallStop { nr } => if v.traces(catalog_name(nr)) {
                seq![nr]
            } else {
                Seq::<u64>::empty()
            },
            _ => Seq::<u64>::empty(),
        });
    }
}

/// With both lists empty, while the child runs, every system call stop is
/// reported, and the phases of the reports alternate, starting from the
/// session's phase.
pub proof fn lemma_all_reported_alternating(p: Phase, v: TraceSpecView, evs: Seq<StopEvent>)
    requires
        v.to_trace.len() == 0,
        v.dont_trace.len() == 0,
        all_live(evs),
    ensures
        nrs_of(run(SessionState::Running { phase: p }, v, evs)) == syscall_nrs(evs),
        forall|i: int| 0 <= i < run(SessionState::Running { phase: p }, v, evs).len()
            ==> (#[trigger] run(SessionState::Running { phase: p }, v, evs)[i]).1 == phase_at(p, i),
    decreases evs.len(),
{
    if evs.len() > 0 {
        let s = SessionState::Running { phase: p };
        assert(is_live(evs[0]));
        let p2 = if evs[0] is SyscallStop { toggled(p) } else { p };
        assert(all_live(evs.drop_first())) by {
            assert forall|i: int| 0 <= i < evs.drop_first().len() implies is_live(#[trigger] evs.drop_first()[i]) by {
                assert(evs.drop_first()[i] == evs[i + 1]);
            }
        }
        lemma_all_reported_alternating(p2, v, evs.drop_first());
        let first = match reported(s, v, evs[0]) {
            Some(x) => seq![x],
            None => Seq::empty(),
        };
        let rest = run(SessionState::Running { phase: p2 }, v, evs.drop_first());
        assert(run(s, v, evs) == first + rest);
        assert(nrs_of(first + rest) =~= nrs_of(first) + nrs_of(rest));
        if evs[0] is SyscallStop {
            assert(nrs_of(first) =~= seq![evs[0]->nr]);
            assert forall|i: int| 0 <= i < (first + rest).len() implies (#[trigger] (first + rest)[i]).1 == phase_at(p, i) by {
                if i > 0 {
                    assert((first + rest)[i] == rest[i - 1]);
                    assert(rest[i - 1].1 == phase_at(toggled(p), i - 1));
                }
            }
        } else {
            assert(first =~= Seq::<(u64, Phase)>::empty());
            assert(first + rest =~= rest);
        }
    }
}

/// A session that sees the child's first stop, the exec of the program and
/// the exit of that exec, then only live stops, reports with both lists
/// empty every later system call stop, the first in the entry phase and
/// the phases alternating.
pub proof fn lemma_session_reports_from_entry(
    v: TraceSpecView,
    signal: i32,
    exec_nr: u64,
    evs: Seq<StopEvent>,
)
    requires
        v.to_trace.len() == 0,
        v.dont_trace.len() == 0,
        all_live(evs),
    ensures
        nrs_of(run(SessionState::AwaitingInitialStop, v, start_of_session(signal, exec_nr) + evs)) == syscall_nrs(evs),
        forall|i: int| 0 <= i < run(SessionState::AwaitingInitialStop, v, start_of_session(signal, exec_nr) + evs).len()
            ==> (#[trigger] run(SessionState::AwaitingInitialStop, v, start_of_session(signal, exec_nr) + evs)[i]).1
                == (if i % 2 == 0 { Phase::Entry } else { Phase::Exit }),
{
    let all = start_of_session(signal, exec_nr) + evs;
    let a1 = all.drop_first();
    let a2 = a1.drop_first();
    assert(all[0] == StopEvent::SignalStop { signal });
    assert(a1[0] == StopEvent::Exec);
    assert(a2[0] == StopEvent::SyscallStop { nr: exec_nr });
    assert(a2.drop_first() =~= evs);
    lemma_all_reported_alternating(Phase::Entry, v, evs);
    assert(run(SessionState::LeavingExec, v, a2) =~= run(SessionState::Running { phase: Phase::Entry }, v, evs));
    assert(run(SessionState::AwaitingExec, v, a1) =~= run(SessionState::LeavingExec, v, a2));
    assert(run(SessionState::AwaitingInitialStop, v, all) =~= run(SessionState::AwaitingExec, v, a1));
}

/// The first stops of a session: the child's own stop, the exec of the
/// program, and the exit of that exec.
pub open spec fn start_of_session(signal: i32, exec_nr: u64) -> Seq<StopEvent> {
    seq![StopEvent::SignalStop { signal }, StopEvent::Exec, StopEvent::SyscallStop { nr: exec_nr }]
}

/// A state in which the program has not been started.
pub open spec fn before_exec(s: SessionState) -> bool {
    s is AwaitingInitialStop || s is AwaitingExec || s is Terminated || s is Failed
}

/// A child that never execs the program, because the program cannot be
/// run, is reported on not at all, whatever system calls it makes.
pub proof fn lemma_no_exec_no_report(s: SessionState, v: TraceSpecView, evs: Seq<StopEvent>)
    requires
        before_exec(s),
        forall|i: int| 0 <= i < evs.len() ==> !(#[trigger] evs[i] is Exec),
    ensures
        run(s, v, evs).len() == 0,
    decreases evs.len(),
{
    if evs.len() > 0 {
        assert(!(evs[0] is Exec));
        assert forall|i: int| 0 <= i < evs.drop_first().len() implies !(#[trigger] evs.drop_first()[i] is Exec) by {
            assert(evs.drop_first()[i] == evs[i + 1]);
        }
        lemma_no_exec_no_report(next_state(s, evs[0]), v, evs.drop_first());
    }
}

/// When the child exits, at whatever point of the session, the session ends
/// and the tracer exits with the child's status.
pub proof fn lemma_exit_status_kept(s: SessionState, status: i32)
    requires
        !(s is Terminated),
        !(s is Failed),
    ensures
        command_of(s, StopEvent::Exited { status }) == (Command::Finish { code: status }),
        next_state(s, StopEvent::Exited { status }) == (SessionState::Terminated { code: status }),
{
}

/// A system call stop with a number the table does not name does not end
/// the session: the child is resumed, the phase turns, and the stop is
/// reported, without a name, unless an inclusion list is given.
pub proof fn lemma_unnamed_call_tolerated(p: Phase, v: TraceSpecView, nr: u64)
    requires
        catalog_name(nr) is None,
    ensures
        command_of(SessionState::Running { phase: p }, StopEvent::SyscallStop { nr }) == Command::Resume,
        next_state(SessionState::Running { phase: p }, StopEvent::SyscallStop { nr })
            == (SessionState::Running { phase: toggled(p) }),
        reported(SessionState::Running { phase: p }, v, StopEvent::SyscallStop { nr })
            == (if v.to_trace.len() == 0 { Some((nr, p)) } else { None }),
{
}

} // verus!
