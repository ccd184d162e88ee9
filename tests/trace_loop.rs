use stalker::{
    check_kernel_result, classify_fork, decode_wait_status, ForkSide, KernelError, KernelRequest,
    StopAction, SyscallCatalog, TraceLoop, TracePhase, UserRegsStruct, WaitOutcome,
};

// Status words as the kernel reports them: a syscall stop of the traced
// child (SIGTRAP), and a normal exit with a code.
const SYSCALL_STOP: i64 = 0x057f;
const SYSCALL_STOP_GOOD: i64 = 0x857f;

fn exited(code: i64) -> i64 {
    code << 8
}

fn drive(pid: u64, statuses: &[i64]) -> (TraceLoop, Vec<StopAction>) {
    let mut t = TraceLoop::new(pid);
    let mut actions = Vec::new();
    for &s in statuses {
        if t.finished {
            break;
        }
        actions.push(t.on_wait_status(s));
    }
    (t, actions)
}

#[test]
fn decode_normal_exit() {
    assert_eq!(decode_wait_status(0), WaitOutcome::Exited(0));
    assert_eq!(decode_wait_status(exited(3)), WaitOutcome::Exited(3));
    assert_eq!(decode_wait_status(exited(255)), WaitOutcome::Exited(255));
}

#[test]
fn decode_stops() {
    assert_eq!(decode_wait_status(SYSCALL_STOP), WaitOutcome::Stopped);
    assert_eq!(decode_wait_status(SYSCALL_STOP_GOOD), WaitOutcome::Stopped);
}

#[test]
fn new_session_awaits_entry() {
    let t = TraceLoop::new(7);
    assert_eq!(t.pid, 7);
    assert_eq!(t.phase, TracePhase::AwaitingEntry);
    assert!(!t.finished);
}

#[test]
fn entry_and_exit_alternate_from_entry() {
    let mut t = TraceLoop::new(7);
    for i in 0..10 {
        let expected_phase = if i % 2 == 0 { TracePhase::AwaitingEntry } else { TracePhase::AwaitingExit };
        assert_eq!(t.phase, expected_phase);
        let a = t.on_wait_status(SYSCALL_STOP);
        let expected = if i % 2 == 0 { StopAction::Continue } else { StopAction::ReportSyscall };
        assert_eq!(a, expected);
    }
}

#[test]
fn one_report_per_syscall() {
    for n in 0..8usize {
        let mut statuses = vec![SYSCALL_STOP; n];
        statuses.push(exited(0));
        let (_, actions) = drive(1, &statuses);
        let reports = actions.iter().filter(|a| **a == StopAction::ReportSyscall).count();
        assert_eq!(reports, n / 2);
    }
}

#[test]
fn exit_reported_once_and_last() {
    let statuses = vec![SYSCALL_STOP, SYSCALL_STOP, SYSCALL_STOP, exited(4), SYSCALL_STOP, SYSCALL_STOP];
    let (t, actions) = drive(1, &statuses);
    assert!(t.finished);
    assert_eq!(actions.len(), 4);
    assert_eq!(actions[3], StopAction::ReportExit(4));
    let exits = actions.iter().filter(|a| matches!(a, StopAction::ReportExit(_))).count();
    assert_eq!(exits, 1);
}

#[test]
fn no_op_program_session() {
    // execve exit, then exit_group's entry, then termination with status 0.
    let (t, actions) = drive(9, &[SYSCALL_STOP, SYSCALL_STOP, SYSCALL_STOP, exited(0)]);
    assert_eq!(
        actions,
        vec![StopAction::Continue, StopAction::ReportSyscall, StopAction::Continue, StopAction::ReportExit(0)]
    );
    assert!(t.finished);
}

#[test]
fn write_syscall_report() {
    let mut catalog = SyscallCatalog::new();
    catalog.insert(1, "write".to_string());
    let mut regs = UserRegsStruct::zeroed();
    regs.orig_rax = 1;
    regs.rdi = 1;
    regs.rsi = 0x55a4553dacf0;
    regs.rdx = 3;
    regs.rax = 3;
    let t = TraceLoop::new(51942);
    assert_eq!(t.report_syscall(&regs, &catalog), "[51942] write(1, 55a4553dacf0, 3, ...) = 3");
}

#[test]
fn unknown_syscall_does_not_end_trace() {
    let catalog = SyscallCatalog::new();
    let mut regs = UserRegsStruct::zeroed();
    regs.orig_rax = 999;
    regs.rdi = 0x10;
    regs.rax = 0xffffffffffffffda;
    let mut t = TraceLoop::new(5);
    assert_eq!(t.on_wait_status(SYSCALL_STOP), StopAction::Continue);
    assert_eq!(t.on_wait_status(SYSCALL_STOP), StopAction::ReportSyscall);
    assert_eq!(t.report_syscall(&regs, &catalog), "[5] unknown(10, 0, 0, ...) = ffffffffffffffda");
    assert_eq!(t.on_wait_status(SYSCALL_STOP), StopAction::Continue);
    assert!(!t.finished);
}

#[test]
fn attach_to_missing_process_fails() {
    // ESRCH
    let r = check_kernel_result(KernelRequest::Attach, -3);
    assert_eq!(r, Err(KernelError { request: KernelRequest::Attach, errno: 3 }));
}

#[test]
fn kernel_result_success() {
    assert_eq!(check_kernel_result(KernelRequest::Wait, 1234), Ok(1234));
    assert_eq!(check_kernel_result(KernelRequest::Resume, 0), Ok(0));
}

#[test]
fn kernel_result_extreme_error() {
    let r = check_kernel_result(KernelRequest::ReadRegisters, i64::MIN);
    assert_eq!(r, Err(KernelError { request: KernelRequest::ReadRegisters, errno: 1u64 << 63 }));
}

#[test]
fn fork_sides() {
    assert_eq!(classify_fork(0), Ok(ForkSide::Child));
    assert_eq!(classify_fork(4242), Ok(ForkSide::Parent(4242)));
    assert_eq!(classify_fork(-11), Err(KernelError { request: KernelRequest::Fork, errno: 11 }));
}

#[test]
fn initial_stop_keeps_entry_phase() {
    let mut t = TraceLoop::new(3);
    assert_eq!(t.on_initial_status(SYSCALL_STOP), StopAction::Continue);
    assert_eq!(t.phase, TracePhase::AwaitingEntry);
    assert!(!t.finished);
    assert_eq!(t.on_wait_status(SYSCALL_STOP), StopAction::Continue);
}

#[test]
fn launch_failure_reported_at_initial_wait() {
    let mut t = TraceLoop::new(3);
    assert_eq!(t.on_initial_status(exited(1)), StopAction::ReportExit(1));
    assert!(t.finished);
}

#[test]
fn zeroed_registers() {
    let r = UserRegsStruct::zeroed();
    assert_eq!((r.orig_rax, r.rdi, r.rsi, r.rdx, r.r10, r.rax, r.rip, r.gs), (0, 0, 0, 0, 0, 0, 0, 0));
}

#[test]
fn decode_killed_by_signal() {
    assert_eq!(decode_wait_status(9), WaitOutcome::Killed(9));
    assert_eq!(decode_wait_status(15 | 0x80), WaitOutcome::Killed(15));
    assert_eq!(decode_wait_status(0x137f), WaitOutcome::Stopped);
}

#[test]
fn killed_tracee_ends_session_once() {
    let (t, actions) = drive(2, &[SYSCALL_STOP, SYSCALL_STOP, SYSCALL_STOP, 9, SYSCALL_STOP]);
    assert!(t.finished);
    assert_eq!(
        actions,
        vec![StopAction::Continue, StopAction::ReportSyscall, StopAction::Continue, StopAction::ReportKilled(9)]
    );
}

#[test]
fn killed_before_first_stop() {
    let mut t = TraceLoop::new(3);
    assert_eq!(t.on_initial_status(9), StopAction::ReportKilled(9));
    assert!(t.finished);
}
