//! The `pwd` built-in: reports the working directory. Flags are accepted
//! but have no effect; they are reserved. The working directory itself is
//! handed in by the caller, since this crate performs no system queries.
use vstd::prelude::*;

verus! {

use crate::outputhandler::OutputHandler;

/// The effect of `pwd` on the output channels: the working directory is
/// appended to standard output, and standard error is untouched.
pub open spec fn pwd_effect(acc: (Seq<char>, Seq<char>), cwd: Seq<char>) -> (Seq<char>, Seq<char>) {
    (acc.0 + seq!['\n'] + cwd, acc.1)
}

/// Appends the working directory to the handler's standard output.
pub fn execute(oh: &mut OutputHandler, cwd: &str)
    ensures
        (final(oh)@.stdout, final(oh)@.stderr) == pwd_effect(
            (old(oh)@.stdout, old(oh)@.stderr),
            cwd@,
        ),
{
    oh.add_stdout_str(cwd);
}

} // verus!
