use vstd::prelude::*;

verus! {

/// The user-space general-purpose register file of an x86_64 tracee, in the
/// order in which the kernel lays it out for a register read.
#[derive(Debug, Clone, Copy, PartialEq, Eq)]
pub struct UserRegsStruct {
    pub r15: u64,
    pub r14: u64,
    pub r13: u64,
    pub r12: u64,
    pub rbp: u64,
    pub rbx: u64,
    pub r11: u64,
    /// Fourth syscall argument.
    pub r10: u64,
    pub r9: u64,
    pub r8: u64,
    /// Syscall result at the exit stop.
    pub rax: u64,
    pub rcx: u64,
    /// Third syscall argument.
    pub rdx: u64,
    /// Second syscall argument.
    pub rsi: u64,
    /// First syscall argument.
    pub rdi: u64,
    /// Identifier of the syscall that was invoked.
    pub orig_rax: u64,
    pub rip: u64,
    pub cs: u64,
    pub eflags: u64,
    pub rsp: u64,
    pub ss: u64,
    pub fs_base: u64,
    pub gs_base: u64,
    pub ds: u64,
    pub es: u64,
    pub fs: u64,
    pub gs: u64,
}

/// The register file with every register zero.
pub open spec fn zero_regs() -> UserRegsStruct {
    UserRegsStruct {
        r15: 0,
        r14: 0,
        r13: 0,
        r12: 0,
        rbp: 0,
        rbx: 0,
        r11: 0,
        r10: 0,
        r9: 0,
        r8: 0,
        rax: 0,
        rcx: 0,
        rdx: 0,
        rsi: 0,
        rdi: 0,
        orig_rax: 0,
        rip: 0,
        cs: 0,
        eflags: 0,
        rsp: 0,
        ss: 0,
        fs_base: 0,
        gs_base: 0,
        ds: 0,
        es: 0,
        fs: 0,
        gs: 0,
    }
}

impl UserRegsStruct {
    /// A register file with every register zero.
    pub fn zeroed() -> (r: UserRegsStruct)
        ensures
            r == zero_regs(),
    {
        UserRegsStruct {
            r15: 0,
            r14: 0,
            r13: 0,
            r12: 0,
            rbp: 0,
            rbx: 0,
            r11: 0,
            r10: 0,
            r9: 0,
            r8: 0,
            rax: 0,
            rcx: 0,
            rdx: 0,
            rsi: 0,
            rdi: 0,
            orig_rax: 0,
            rip: 0,
            cs: 0,
            eflags: 0,
            rsp: 0,
            ss: 0,
            fs_base: 0,
            gs_base: 0,
            ds: 0,
            es: 0,
            fs: 0,
            gs: 0,
        }
    }
}

/// Which boundary of a syscall a stop lies on.
#[derive(Debug, Clone, Copy, PartialEq, Eq)]
pub enum SyscallPhase {
    Entry,
    Exit,
}

/// What one syscall-boundary stop shows: the syscall identifier, the four
/// argument registers in calling-convention order, and the result register.
#[derive(Debug, Clone, Copy, PartialEq, Eq)]
pub struct SyscallStopEvent {
    pub syscall_id: u64,
    pub args: [u64; 4],
    pub result: u64,
    pub phase: SyscallPhase,
}

/// The event that a register file shows at a stop of the given phase.
pub open spec fn event_of(regs: UserRegsStruct, phase: SyscallPhase) -> SyscallStopEvent {
    SyscallStopEvent {
        syscall_id: regs.orig_rax,
        args: [regs.rdi, regs.rsi, regs.rdx, regs.r10],
        result: regs.rax,
        phase,
    }
}

impl SyscallStopEvent {
    /// Reads the syscall identifier, arguments and result out of a register
    /// snapshot taken at a stop of the given phase.
    pub fn from_regs(regs: &UserRegsStruct, phase: SyscallPhase) -> (r: SyscallStopEvent)
        ensures
            r == event_of(*regs, phase),
    {
        SyscallStopEvent {
            syscall_id: regs.orig_rax,
            args: [regs.rdi, regs.rsi, regs.rdx, regs.r10],
            result: regs.rax,
            phase,
        }
    }
}

} // verus!
