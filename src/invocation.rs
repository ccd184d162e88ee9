use vstd::prelude::*;

verus! {

/// Whether `s` is a non-empty run of ASCII decimal digits.
pub open spec fn is_decimal(s: Seq<char>) -> bool {
    s.len() > 0 && forall|i: int| 0 <= i < s.len() ==> '0' <= #[trigger] s[i] <= '9'
}

/// The number that a run of decimal digits denotes.
pub open spec fn decimal_value(s: Seq<char>) -> nat
    decreases s.len(),
{
    if s.len() == 0 {
        0
    } else {
        decimal_value(s.drop_last()) * 10 + (s.last() as nat - '0' as nat) as nat
    }
}

/// The process identifier that `s` spells, if it is a decimal number from
/// one up to the largest identifier the kernel interface can carry.
pub open spec fn pid_of(s: Seq<char>) -> Option<u64> {
    if is_decimal(s) && 0 < decimal_value(s) <= i64::MAX {
        Some(decimal_value(s) as u64)
    } else {
        None
    }
}

proof fn lemma_decimal_value_grows(s: Seq<char>, i: int, j: int)
    requires
        0 <= i <= j <= s.len(),
        forall|k: int| 0 <= k < s.len() ==> '0' <= #[trigger] s[k] <= '9',
    ensures
        decimal_value(s.take(i)) <= decimal_value(s.take(j)),
    decreases j - i,
{
    if i < j {
        lemma_decimal_value_grows(s, i, j - 1);
        assert(s.take(j).drop_last() =~= s.take(j - 1));
    }
}

/// Parses a process identifier given in decimal.
pub fn parse_pid(s: &str) -> (r: Option<u64>)
    ensures
        r == pid_of(s@),
{
    let n = s.unicode_len();
    if n == 0 {
        return None;
    }
    let mut v: u64 = 0;
    let mut i: usize = 0;
    while i < n
        invariant
            n == s@.len(),
            i <= n,
            forall|k: int| 0 <= k < i ==> '0' <= #[trigger] s@[k] <= '9',
            v == decimal_value(s@.take(i as int)),
        decreases n - i,
    {
        let c = s.get_char(i);
        if c < '0' || c > '9' {
            assert(!is_decimal(s@));
            return None;
        }
        let d: u64 = (c as u32 - '0' as u32) as u64;
        assert(s@.take(i + 1).drop_last() =~= s@.take(i as int));
        if v > (u64::MAX - d) / 10 {
            proof {
                assert(decimal_value(s@.take(i + 1)) > u64::MAX) by (nonlinear_arith)
                    requires
                        decimal_value(s@.take(i + 1)) == v * 10 + d,
                        v > (u64::MAX - d) / 10,
                        d <= 9,
                ;
                if is_decimal(s@) {
                    lemma_decimal_value_grows(s@, i + 1, n as int);
                    assert(s@.take(n as int) =~= s@);
                }
            }
            return None;
        }
        v = v * 10 + d;
        i = i + 1;
    }
    assert(s@.take(n as int) =~= s@);
    if v == 0 || v > i64::MAX as u64 {
        return None;
    }
    Some(v)
}

/// How the tracer was asked to find its tracee.
#[derive(Debug)]
pub enum Invocation {
    /// Attach to the running process with this identifier.
    Attach(u64),
    /// Launch this command (name first, then its arguments) as a child.
    Launch(Vec<String>),
}

/// A command line that names no tracee.
#[derive(Debug, Clone, Copy, PartialEq, Eq)]
pub enum UsageError {
    /// Neither a process identifier nor a command was given.
    NoCommand,
    /// The identifier after the attach flag is not a positive decimal number
    /// that fits in an i64.
    BadPid,
}

/// Whether the arguments are the attach flag followed by one identifier.
pub open spec fn is_attach_form(args: Seq<String>) -> bool {
    args.len() == 2 && args[0]@ == "-p"@
}

/// Reads the command line (without the program's own name): `-p <pid>`
/// attaches to a running process; anything else non-empty is a command to
/// launch.
pub fn parse_invocation(args: Vec<String>) -> (r: Result<Invocation, UsageError>)
    ensures
        r matches Err(UsageError::NoCommand) <==> args@.len() == 0,
        r matches Err(UsageError::BadPid) <==> is_attach_form(args@) && pid_of(args@[1]@) is None,
        r matches Ok(Invocation::Attach(_)) <==> is_attach_form(args@) && pid_of(args@[1]@) is Some,
        r matches Ok(Invocation::Attach(p)) ==> pid_of(args@[1]@) == Some(p),
        r matches Ok(Invocation::Launch(_)) <==> args@.len() > 0 && !is_attach_form(args@),
        r matches Ok(Invocation::Launch(cmd)) ==> cmd@ == args@,
{
    if args.len() == 0 {
        return Err(UsageError::NoCommand);
    }
    let flag = String::from_str("-p");
    if args.len() == 2 && args[0] == flag {
        match parse_pid(args[1].as_str()) {
            Some(p) => Ok(Invocation::Attach(p)),
            None => Err(UsageError::BadPid),
        }
    } else {
        Ok(Invocation::Launch(args))
    }
}

} // verus!
