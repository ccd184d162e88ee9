use vstd::prelude::*;
use crate::catalog::{display_name_of, SyscallCatalog};
use crate::regs::{event_of, SyscallPhase, SyscallStopEvent, UserRegsStruct};
use crate::report::{format_syscall_line, syscall_line};

verus! {

/// What a wait status says of the tracee.
#[derive(Debug, Clone, Copy, PartialEq, Eq)]
pub enum WaitOutcome {
    /// It terminated normally with this exit code.
    Exited(u64),
    /// It was terminated by this signal.
    Killed(u64),
    /// It is stopped and still alive; every such stop is taken for a syscall
    /// boundary.
    Stopped,
}

/// The decoding of a wait status: zero low seven bits mean a normal exit,
/// whose code is the next byte up; a low byte of 0x7f means a stop; any other
/// low seven bits are the signal that terminated the tracee.
pub open spec fn outcome_of(status: i64) -> WaitOutcome {
    if status & 0x7f == 0 {
        WaitOutcome::Exited(((status >> 8) & 0xff) as u64)
    } else if status & 0xff == 0x7f {
        WaitOutcome::Stopped
    } else {
        WaitOutcome::Killed((status & 0x7f) as u64)
    }
}

/// Decodes the status that a wait on the tracee reported.
pub fn decode_wait_status(status: i64) -> (r: WaitOutcome)
    ensures
        r == outcome_of(status),
{
    if status & 0x7f == 0 {
        WaitOutcome::Exited(((status >> 8) & 0xff) as u64)
    } else if status & 0xff == 0x7f {
        WaitOutcome::Stopped
    } else {
        WaitOutcome::Killed((status & 0x7f) as u64)
    }
}

/// Which boundary the next syscall stop of the tracee lies on.
#[derive(Debug, Clone, Copy, PartialEq, Eq)]
pub enum TracePhase {
    AwaitingEntry,
    AwaitingExit,
}

pub open spec fn flip(p: TracePhase) -> TracePhase {
    match p {
        TracePhase::AwaitingEntry => TracePhase::AwaitingExit,
        TracePhase::AwaitingExit => TracePhase::AwaitingEntry,
    }
}

/// What the driver of the loop does after a wait.
#[derive(Debug, Clone, Copy, PartialEq, Eq)]
pub enum StopAction {
    /// An entry stop: resume the tracee to its next syscall stop.
    Continue,
    /// An exit stop: read the registers, report the syscall, then resume.
    ReportSyscall,
    /// The tracee terminated normally: report its exit code and end the
    /// session.
    ReportExit(u64),
    /// The tracee was terminated by a signal: report the signal and end the
    /// session.
    ReportKilled(u64),
}

/// The report that ends a session on a termination of the tracee.
pub open spec fn final_report(o: WaitOutcome) -> StopAction {
    match o {
        WaitOutcome::Exited(code) => StopAction::ReportExit(code),
        WaitOutcome::Killed(sig) => StopAction::ReportKilled(sig),
        WaitOutcome::Stopped => StopAction::Continue,
    }
}

/// Whether an action is the report that ends a session.
pub open spec fn is_final(a: StopAction) -> bool {
    a is ReportExit || a is ReportKilled
}

/// The state of a trace session over one tracee.
#[derive(Debug, Clone, Copy, PartialEq, Eq)]
pub struct TraceLoop {
    pub pid: u64,
    pub phase: TracePhase,
    pub finished: bool,
}

/// The state in which a session starts, after the tracee's initial stop.
pub open spec fn initial(pid: u64) -> TraceLoop {
    TraceLoop { pid, phase: TracePhase::AwaitingEntry, finished: false }
}

/// One transition of the session on a wait status.
pub open spec fn step(s: TraceLoop, status: i64) -> (TraceLoop, StopAction) {
    match outcome_of(status) {
        WaitOutcome::Stopped => (
            TraceLoop { phase: flip(s.phase), ..s },
            if s.phase == TracePhase::AwaitingExit {
                StopAction::ReportSyscall
            } else {
                StopAction::Continue
            },
        ),
        o => (TraceLoop { finished: true, ..s }, final_report(o)),
    }
}

/// The transition on the status of the wait that follows attaching or
/// launching: it ends the session if the tracee already terminated, and
/// otherwise leaves the session awaiting its first syscall entry.
pub open spec fn initial_step(s: TraceLoop, status: i64) -> (TraceLoop, StopAction) {
    match outcome_of(status) {
        WaitOutcome::Stopped => (s, StopAction::Continue),
        o => (TraceLoop { finished: true, ..s }, final_report(o)),
    }
}

/// The actions of a session fed the given wait statuses, up to its end.
pub open spec fn run(s: TraceLoop, statuses: Seq<i64>) -> Seq<StopAction>
    decreases statuses.len(),
{
    if statuses.len() == 0 || s.finished {
        Seq::empty()
    } else {
        seq![step(s, statuses[0]).1] + run(step(s, statuses[0]).0, statuses.drop_first())
    }
}

/// The state of a session after the given wait statuses.
pub open spec fn after(s: TraceLoop, statuses: Seq<i64>) -> TraceLoop
    decreases statuses.len(),
{
    if statuses.len() == 0 || s.finished {
        s
    } else {
        after(step(s, statuses[0]).0, statuses.drop_first())
    }
}

/// How many syscall reports a run of actions holds.
pub open spec fn syscall_reports(acts: Seq<StopAction>) -> nat
    decreases acts.len(),
{
    if acts.len() == 0 {
        0
    } else {
        (if acts[0] == StopAction::ReportSyscall {
            1nat
        } else {
            0nat
        }) + syscall_reports(acts.drop_first())
    }
}

/// The first `k` statuses are stops and the one at `k` is a termination.
pub open spec fn stops_then_end(statuses: Seq<i64>, k: int) -> bool {
    &&& 0 <= k < statuses.len()
    &&& forall|j: int| 0 <= j < k ==> outcome_of(#[trigger] statuses[j]) == WaitOutcome::Stopped
    &&& outcome_of(statuses[k]) != WaitOutcome::Stopped
}

impl TraceLoop {
    /// A session over `pid`, whose first stop after the initial one is taken
    /// for a syscall entry.
    pub fn new(pid: u64) -> (r: TraceLoop)
        ensures
            r == initial(pid),
    {
        TraceLoop { pid, phase: TracePhase::AwaitingEntry, finished: false }
    }

    /// Takes the status of the first wait on a fresh tracee, which stopped it
    /// where tracing begins; a tracee that terminated instead (a command that
    /// could not start) ends the session with its exit report.
    pub fn on_initial_status(&mut self, status: i64) -> (a: StopAction)
        requires
            !old(self).finished,
        ensures
            (*final(self), a) == initial_step(*old(self), status),
    {
        match decode_wait_status(status) {
            WaitOutcome::Exited(code) => {
                self.finished = true;
                StopAction::ReportExit(code)
            },
            WaitOutcome::Killed(sig) => {
                self.finished = true;
                StopAction::ReportKilled(sig)
            },
            WaitOutcome::Stopped => StopAction::Continue,
        }
    }

    /// Takes the status of the latest wait and says what to do next: nothing
    /// at an entry stop, a syscall report at an exit stop, an exit report and
    /// the end of the session at termination.
    pub fn on_wait_status(&mut self, status: i64) -> (a: StopAction)
        requires
            !old(self).finished,
        ensures
            (*final(self), a) == step(*old(self), status),
    {
        match decode_wait_status(status) {
            WaitOutcome::Exited(code) => {
                self.finished = true;
                StopAction::ReportExit(code)
            },
            WaitOutcome::Killed(sig) => {
                self.finished = true;
                StopAction::ReportKilled(sig)
            },
            WaitOutcome::Stopped => {
                let was_exit = match self.phase {
                    TracePhase::AwaitingExit => true,
                    TracePhase::AwaitingEntry => false,
                };
                self.phase = if was_exit {
                    TracePhase::AwaitingEntry
                } else {
                    TracePhase::AwaitingExit
                };
                if was_exit {
                    StopAction::ReportSyscall
                } else {
                    StopAction::Continue
                }
            },
        }
    }

    /// The report line of the syscall whose exit stop shows `regs`, its name
    /// taken from the catalog, or the placeholder where the catalog lacks it.
    pub fn report_syscall(&self, regs: &UserRegsStruct, catalog: &SyscallCatalog) -> (r: String)
        ensures
            r@ == syscall_line(
                self.pid as nat,
                display_name_of(catalog@, regs.orig_rax),
                event_of(*regs, SyscallPhase::Exit),
            ),
    {
        let name = catalog.display_name(regs.orig_rax);
        let event = SyscallStopEvent::from_regs(regs, SyscallPhase::Exit);
        format_syscall_line(self.pid, name.as_str(), &event)
    }
}

proof fn lemma_session_shape(s: TraceLoop, statuses: Seq<i64>, k: int)
    requires
        !s.finished,
        stops_then_end(statuses, k),
    ensures
        run(s, statuses).len() == k + 1,
        run(s, statuses)[k] == final_report(outcome_of(statuses[k])),
        forall|j: int| 0 <= j < k ==> !is_final(#[trigger] run(s, statuses)[j]),
        syscall_reports(run(s, statuses)) == (k + if s.phase == TracePhase::AwaitingExit {
            1int
        } else {
            0int
        }) / 2,
    decreases k,
{
    let t = step(s, statuses[0]).0;
    let a = step(s, statuses[0]).1;
    let rest = statuses.drop_first();
    let r = run(s, statuses);
    assert(r == seq![a] + run(t, rest));
    assert(r.drop_first() =~= run(t, rest));
    assert(syscall_reports(r) == (if a == StopAction::ReportSyscall {
        1nat
    } else {
        0nat
    }) + syscall_reports(run(t, rest)));
    if k == 0 {
        assert(run(t, rest) == Seq::<StopAction>::empty());
        assert(syscall_reports(run(t, rest)) == 0);
    } else {
        assert(outcome_of(statuses[0]) == WaitOutcome::Stopped);
        assert(stops_then_end(rest, k - 1)) by {
            assert forall|j: int| 0 <= j < k - 1 implies outcome_of(#[trigger] rest[j])
                == WaitOutcome::Stopped by {
                assert(rest[j] == statuses[j + 1]);
            }
        }
        lemma_session_shape(t, rest, k - 1);
        assert forall|j: int| 0 <= j < k implies !is_final(#[trigger] r[j]) by {
            if j > 0 {
                assert(r[j] == run(t, rest)[j - 1]);
            }
        }
        assert(r[k] == run(t, rest)[k - 1]);
        assert(rest[k - 1] == statuses[k]);
    }
}

/// For a tracee that stops `k` times at syscall boundaries and then
/// terminates,
/// a session reports exactly one syscall per completed entry/exit pair: the
/// entry stop is never reported on its own.
pub proof fn lemma_pairing(pid: u64, statuses: Seq<i64>, k: int)
    requires
        stops_then_end(statuses, k),
    ensures
        syscall_reports(run(initial(pid), statuses)) == k / 2,
{
    lemma_session_shape(initial(pid), statuses, k);
}

/// Termination of the tracee, by exit or by signal, yields exactly one final
/// report, with its exit code or signal, as the last action of the session:
/// whatever statuses would follow are never consumed.
pub proof fn lemma_exit_report(pid: u64, statuses: Seq<i64>, k: int)
    requires
        stops_then_end(statuses, k),
    ensures
        run(initial(pid), statuses).len() == k + 1,
        run(initial(pid), statuses)[k] == final_report(outcome_of(statuses[k])),
        forall|j: int| 0 <= j < k ==> !is_final(#[trigger] run(initial(pid), statuses)[j]),
{
    lemma_session_shape(initial(pid), statuses, k);
}

/// Over a run of syscall stops, entry and exit strictly alternate starting
/// with entry: before the `i`-th stop the session awaits an entry exactly when
/// `i` is even, and the `i`-th stop is reported exactly when `i` is odd.
pub proof fn lemma_alternation(pid: u64, statuses: Seq<i64>, i: int)
    requires
        0 <= i < statuses.len(),
        forall|j: int| 0 <= j <= i ==> outcome_of(#[trigger] statuses[j]) == WaitOutcome::Stopped,
    ensures
        !after(initial(pid), statuses.take(i)).finished,
        after(initial(pid), statuses.take(i)).phase == if i % 2 == 0 {
            TracePhase::AwaitingEntry
        } else {
            TracePhase::AwaitingExit
        },
        (step(after(initial(pid), statuses.take(i)), statuses[i]).1 == StopAction::ReportSyscall)
            == (i % 2 == 1),
    decreases i,
{
    if i > 0 {
        lemma_alternation(pid, statuses, i - 1);
        lemma_after_snoc(initial(pid), statuses.take(i - 1), statuses[i - 1]);
        assert(statuses.take(i - 1).push(statuses[i - 1]) =~= statuses.take(i));
    } else {
        assert(statuses.take(0).len() == 0);
    }
}

proof fn lemma_after_snoc(s: TraceLoop, prefix: Seq<i64>, x: i64)
    requires
        !after(s, prefix).finished,
    ensures
        after(s, prefix.push(x)) == step(after(s, prefix), x).0,
    decreases prefix.len(),
{
    if s.finished {
        assert(after(s, prefix) == s);
    }
    if prefix.len() == 0 {
        assert(prefix.push(x).drop_first() =~= Seq::<i64>::empty());
        assert(after(step(s, x).0, Seq::<i64>::empty()) == step(s, x).0);
    } else {
        assert(prefix.push(x).drop_first() =~= prefix.drop_first().push(x));
        assert(prefix.push(x)[0] == prefix[0]);
        lemma_after_snoc(step(s, prefix[0]).0, prefix.drop_first(), x);
    }
}

/// A kernel request whose outcome the tracer checks.
#[derive(Debug, Clone, Copy, PartialEq, Eq)]
pub enum KernelRequest {
    Attach,
    TraceMe,
    Fork,
    Exec,
    Resume,
    Wait,
    ReadRegisters,
}

/// A kernel request that failed, with the error number it returned.
#[derive(Debug, Clone, Copy, PartialEq, Eq)]
pub struct KernelError {
    pub request: KernelRequest,
    pub errno: u64,
}

/// Checks the raw return value of a kernel request: a negative value is the
/// negated error number, anything else is the request's result.
pub fn check_kernel_result(request: KernelRequest, ret: i64) -> (r: Result<u64, KernelError>)
    ensures
        ret < 0 <==> r is Err,
        r matches Ok(v) ==> v == ret as u64,
        r matches Err(e) ==> e.request == request && e.errno == -ret,
{
    if ret < 0 {
        let errno: u64 = (-(ret + 1)) as u64 + 1;
        Err(KernelError { request, errno })
    } else {
        Ok(ret as u64)
    }
}

/// Which side of a fork the caller is on.
#[derive(Debug, Clone, Copy, PartialEq, Eq)]
pub enum ForkSide {
    /// The new child process.
    Child,
    /// The parent, with the child's process identifier.
    Parent(u64),
}

/// Interprets the raw return value of a fork: zero in the child, the child's
/// identifier in the parent, a negated error number on failure.
pub fn classify_fork(ret: i64) -> (r: Result<ForkSide, KernelError>)
    ensures
        ret == 0 <==> r == Ok::<ForkSide, KernelError>(ForkSide::Child),
        ret > 0 <==> r == Ok::<ForkSide, KernelError>(ForkSide::Parent(ret as u64)),
        ret < 0 <==> r == Err::<ForkSide, KernelError>(
            KernelError { request: KernelRequest::Fork, errno: (-ret) as u64 },
        ),
{
    match check_kernel_result(KernelRequest::Fork, ret) {
        Err(e) => Err(e),
        Ok(v) => {
            if v == 0 {
                Ok(ForkSide::Child)
            } else {
                Ok(ForkSide::Parent(v))
            }
        },
    }
}

} // verus!
