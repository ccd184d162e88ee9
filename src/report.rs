use vstd::prelude::*;
use crate::regs::SyscallStopEvent;

verus! {

/// The character of a digit below sixteen, lower-case past nine.
pub open spec fn digit_char(d: nat) -> char {
    if d < 10 {
        (d + '0' as nat) as char
    } else {
        (d - 10 + 'a' as nat) as char
    }
}

/// The digits of `n` in the given base, most significant first, without
/// leading zeros ("0" for zero).
pub open spec fn digits_of(n: nat, base: nat) -> Seq<char>
    recommends
        2 <= base <= 16,
    decreases n,
    via digits_of_decreases
{
    if n < base || base < 2 {
        seq![digit_char(n % 16)]
    } else {
        digits_of(n / base, base).push(digit_char(n % base))
    }
}

#[via_fn]
proof fn digits_of_decreases(n: nat, base: nat) {
    if !(n < base || base < 2) {
        assert(n / base < n) by (nonlinear_arith)
            requires
                n >= base,
                base >= 2,
        ;
    }
}

/// Lower-case hexadecimal rendering of `n`.
pub open spec fn hex_of(n: nat) -> Seq<char> {
    digits_of(n, 16)
}

/// Decimal rendering of `n`.
pub open spec fn dec_of(n: nat) -> Seq<char> {
    digits_of(n, 10)
}

/// The report line of one syscall:
/// `[pid] name(arg0, arg1, arg2, ...) = result`, numbers past the pid in hex.
pub open spec fn syscall_line(pid: nat, name: Seq<char>, e: SyscallStopEvent) -> Seq<char> {
    "["@ + dec_of(pid) + "] "@ + name + "("@ + hex_of(e.args[0] as nat) + ", "@ + hex_of(
        e.args[1] as nat,
    ) + ", "@ + hex_of(e.args[2] as nat) + ", ...) = "@ + hex_of(e.result as nat)
}

/// The report line of the tracee's termination.
pub open spec fn exit_line(code: nat) -> Seq<char> {
    "child exited with status: "@ + dec_of(code)
}

/// The report line of the tracee's termination by a signal.
pub open spec fn killed_line(sig: nat) -> Seq<char> {
    "child killed by signal: "@ + dec_of(sig)
}

fn digit_str(d: u64) -> (r: &'static str)
    requires
        d < 16,
    ensures
        r@ == seq![digit_char(d as nat)],
{
    proof {
        reveal_strlit("0");
        reveal_strlit("1");
        reveal_strlit("2");
        reveal_strlit("3");
        reveal_strlit("4");
        reveal_strlit("5");
        reveal_strlit("6");
        reveal_strlit("7");
        reveal_strlit("8");
        reveal_strlit("9");
        reveal_strlit("a");
        reveal_strlit("b");
        reveal_strlit("c");
        reveal_strlit("d");
        reveal_strlit("e");
        reveal_strlit("f");
    }
    match d {
        0 => "0",
        1 => "1",
        2 => "2",
        3 => "3",
        4 => "4",
        5 => "5",
        6 => "6",
        7 => "7",
        8 => "8",
        9 => "9",
        10 => "a",
        11 => "b",
        12 => "c",
        13 => "d",
        14 => "e",
        _ => "f",
    }
}

/// Appends the digits of `n` in `base` to `out`.
fn push_digits(out: &mut String, n: u64, base: u64)
    requires
        2 <= base <= 16,
    ensures
        final(out)@ == old(out)@ + digits_of(n as nat, base as nat),
    decreases n,
{
    if n >= base {
        assert(n / base < n) by (nonlinear_arith)
            requires
                n >= base,
                base >= 2,
        ;
        push_digits(out, n / base, base);
    } else {
        assert(n % 16 == n % base) by (nonlinear_arith)
            requires
                n < base,
                base <= 16,
        ;
    }
    out.append(digit_str(n % base));
}

/// Lower-case hexadecimal rendering of `n`, without prefix or padding.
pub fn to_hex(n: u64) -> (r: String)
    ensures
        r@ == hex_of(n as nat),
{
    let mut s = String::new();
    push_digits(&mut s, n, 16);
    s
}

/// Decimal rendering of `n`.
pub fn to_decimal(n: u64) -> (r: String)
    ensures
        r@ == dec_of(n as nat),
{
    let mut s = String::new();
    push_digits(&mut s, n, 10);
    s
}

/// Formats the report line of a syscall observed at its exit stop. The line
/// depends on its arguments alone.
pub fn format_syscall_line(pid: u64, name: &str, event: &SyscallStopEvent) -> (r: String)
    ensures
        r@ == syscall_line(pid as nat, name@, *event),
{
    let mut s = String::from_str("[");
    s.append(to_decimal(pid).as_str());
    s.append("] ");
    s.append(name);
    s.append("(");
    s.append(to_hex(event.args[0]).as_str());
    s.append(", ");
    s.append(to_hex(event.args[1]).as_str());
    s.append(", ");
    s.append(to_hex(event.args[2]).as_str());
    s.append(", ...) = ");
    s.append(to_hex(event.result).as_str());
    s
}

/// Formats the report line of the tracee's termination with its exit code.
pub fn format_exit_line(code: u64) -> (r: String)
    ensures
        r@ == exit_line(code as nat),
{
    let mut s = String::from_str("child exited with status: ");
    s.append(to_decimal(code).as_str());
    s
}

/// Formats the report line of the tracee's termination by a signal.
pub fn format_killed_line(sig: u64) -> (r: String)
    ensures
        r@ == killed_line(sig as nat),
{
    let mut s = String::from_str("child killed by signal: ");
    s.append(to_decimal(sig).as_str());
    s
}

} // verus!
