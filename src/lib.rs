//! A minimal system-call tracer: the decisions of the trace loop, the register
//! record read at each stop, the syscall catalog and the report lines.
pub mod catalog;
pub mod invocation;
pub mod regs;
pub mod report;
pub mod trace;

pub use catalog::{fetch_syscall_table, CatalogError, SyscallCatalog};
pub use invocation::{parse_invocation, parse_pid, Invocation, UsageError};
pub use regs::{SyscallPhase, SyscallStopEvent, UserRegsStruct};
pub use report::{format_exit_line, format_killed_line, format_syscall_line, to_decimal, to_hex};
pub use trace::{
    check_kernel_result, classify_fork, decode_wait_status, ForkSide, KernelError, KernelRequest,
    StopAction, TraceLoop, TracePhase, WaitOutcome,
};
