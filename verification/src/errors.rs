//! The one escalation path for the result code of every privileged call.
//!
//! A call either returns zero or it has failed for good: nothing is retried
//! and no kind of failure is told from another. What is kept of a failure is
//! where it was noticed, the code that came back and the error number that
//! the operating system left behind.

use vstd::prelude::*;

verus! {

/// A privileged call that did not succeed.
#[derive(Clone, Copy, Debug, PartialEq, Eq, Structural)]
pub struct CallError {
    /// Marker of the place in the source where the call was made.
    pub line: u32,
    /// The code that the call returned.
    pub ret: i32,
    /// The operating system's error number at the time of the failure.
    pub errno: i32,
}

/// Why the boot sequence came to a halt.
#[derive(Clone, Copy, Debug, PartialEq, Eq, Structural)]
pub enum Fatal {
    /// A directory could not be created.
    Directory,
    /// A mount or the handoff returned a failure code.
    Call(CallError),
    /// The handoff came back without reporting a failure, though a process
    /// image that was replaced cannot come back at all.
    HandoffReturned,
}

/// The character for a single decimal digit.
pub open spec fn digit(d: int) -> char {
    if d == 0 {
        '0'
    } else if d == 1 {
        '1'
    } else if d == 2 {
        '2'
    } else if d == 3 {
        '3'
    } else if d == 4 {
        '4'
    } else if d == 5 {
        '5'
    } else if d == 6 {
        '6'
    } else if d == 7 {
        '7'
    } else if d == 8 {
        '8'
    } else {
        '9'
    }
}

/// A natural number in decimal, most significant digit first, without
/// leading zeros.
pub open spec fn digits(n: nat) -> Seq<char>
    decreases n,
{
    if n < 10 {
        seq![digit(n as int)]
    } else {
        digits(n / 10) + seq![digit((n % 10) as int)]
    }
}

/// An integer in decimal, with a minus sign in front of a negative one.
pub open spec fn decimal(n: int) -> Seq<char> {
    if n < 0 {
        seq!['-'] + digits((-n) as nat)
    } else {
        digits(n as nat)
    }
}

/// The diagnostic line for a failure.
pub open spec fn diagnostic(line: u32, ret: i32, errno: i32) -> Seq<char> {
    "Line: "@ + decimal(line as int) + ", Ret: "@ + decimal(ret as int) + ", Errorno: "@ + decimal(
        errno as int,
    )
}

fn digit_text(d: u64) -> (text: &'static str)
    requires
        d < 10,
    ensures
        text@ == seq![digit(d as int)],
{
    proof {
        reveal_strlit("0");
        reveal_strlit("1");
        reveal_strlit("2");
        reveal_strlit("3");
        reveal_strlit("4");
        reveal_strlit("5");
        reveal_strlit("6");
        reveal_strlit("7");
        reveal_strlit("8");
        reveal_strlit("9");
    }
    let text = if d == 0 {
        "0"
    } else if d == 1 {
        "1"
    } else if d == 2 {
        "2"
    } else if d == 3 {
        "3"
    } else if d == 4 {
        "4"
    } else if d == 5 {
        "5"
    } else if d == 6 {
        "6"
    } else if d == 7 {
        "7"
    } else if d == 8 {
        "8"
    } else {
        "9"
    };
    assert(text@ =~= seq![digit(d as int)]);
    text
}

fn append_digits(out: &mut String, n: u64)
    ensures
        final(out)@ == old(out)@ + digits(n as nat),
    decreases n,
{
    if n >= 10 {
        append_digits(out, n / 10);
    }
    out.append(digit_text(n % 10));
}

fn append_decimal(out: &mut String, n: i64)
    requires
        n > i64::MIN,
    ensures
        final(out)@ == old(out)@ + decimal(n as int),
{
    if n < 0 {
        out.append("-");
        proof {
            reveal_strlit("-");
            assert("-"@ =~= seq!['-']);
        }
        append_digits(out, (-n) as u64);
    } else {
        append_digits(out, n as u64);
    }
}

impl CallError {
    /// The diagnostic line for this failure: where it was noticed, the code
    /// that came back and the error number, each in decimal.
    pub fn message(&self) -> (text: String)
        ensures
            text@ == diagnostic(self.line, self.ret, self.errno),
    {
        let mut text = String::from_str("Line: ");
        append_decimal(&mut text, self.line as i64);
        text.append(", Ret: ");
        append_decimal(&mut text, self.ret as i64);
        text.append(", Errorno: ");
        append_decimal(&mut text, self.errno as i64);
        text
    }
}

/// Checks the result code of a privileged call made at `line`.
///
/// Zero is success, whatever `errno` holds. Any other code is a failure, and
/// the failure keeps the three numbers as they came.
pub fn check_err(ret: i32, line: u32, errno: i32) -> (checked: Result<(), CallError>)
    ensures
        ret == 0 ==> checked == Ok::<(), CallError>(()),
        ret != 0 ==> checked == Err::<(), CallError>((CallError { line, ret, errno })),
{
    if ret == 0 {
        Ok(())
    } else {
        Err(CallError { line, ret, errno })
    }
}

} // verus!
