//! The handoff: the replacement of the running process image by a program
//! found on the execution search path.
//!
//! A handoff that works never comes back. So nothing here stands for its
//! success: whatever comes back from it is a failure.

use vstd::prelude::*;
use crate::errors::{check_err, CallError, Fatal};
use crate::text::all_nul_free;

verus! {

/// A handoff as the kernel takes it.
#[derive(Debug, PartialEq, Eq)]
pub struct ExecCall {
    /// The program to look up on the execution search path.
    pub program: String,
    /// The argument list of the new process image, the program's own name
    /// first.
    pub argv: Vec<String>,
}

/// What an [`ExecCall`] holds.
#[verifier::ext_equal]
pub struct ExecCallView {
    pub program: Seq<char>,
    pub argv: Seq<Seq<char>>,
}

impl View for ExecCall {
    type V = ExecCallView;

    open spec fn view(&self) -> ExecCallView {
        ExecCallView { program: self.program@, argv: self.argv.deep_view() }
    }
}

/// The handoff that an argument list asks for: its first argument names the
/// program, and the whole list is passed on.
pub open spec fn handoff(args: Seq<Seq<char>>) -> ExecCallView {
    ExecCallView { program: args[0], argv: args }
}

/// What a handoff that came back amounts to.
pub open spec fn handoff_failure(ret: i32, line: u32, errno: i32) -> Fatal {
    if ret == 0 {
        Fatal::HandoffReturned
    } else {
        Fatal::Call(CallError { line, ret, errno })
    }
}

/// Prepares the handoff to the program that `args` starts with.
///
/// There must be a first argument, and no argument may hold a NUL character:
/// `nul_free_all` tells.
pub fn exec(args: Vec<String>) -> (call: ExecCall)
    requires
        args.len() > 0,
        all_nul_free(args.deep_view()),
    ensures
        call@ == handoff(args.deep_view()),
{
    let program = args[0].clone();
    ExecCall { program, argv: args }
}

/// Judges a handoff that came back with the code `ret`, made at `line`.
///
/// A code other than zero is a failed call like any other. Zero cannot be: a
/// process image that was replaced does not return.
pub fn exec_returned(ret: i32, line: u32, errno: i32) -> (cause: Fatal)
    ensures
        cause == handoff_failure(ret, line, errno),
{
    match check_err(ret, line, errno) {
        Ok(()) => Fatal::HandoffReturned,
        Err(failure) => Fatal::Call(failure),
    }
}

} // verus!
