//! The output sink: collects the standard-output and standard-error text of
//! the stage being executed. Each addition is separated from what is already
//! buffered by a newline. Rendering to the terminal is the caller's concern;
//! `display` only assembles the text to show.
use vstd::prelude::*;

verus! {

use vstd::string::StringExecFns;

/// Accumulated standard-output and standard-error text.
pub struct OutputHandler {
    stdout: String,
    stderr: String,
}

/// Ghost image of an `OutputHandler`: the two accumulated texts.
pub struct OhView {
    pub stdout: Seq<char>,
    pub stderr: Seq<char>,
}

impl View for OutputHandler {
    type V = OhView;

    closed spec fn view(&self) -> OhView {
        OhView { stdout: self.stdout@, stderr: self.stderr@ }
    }
}

impl OutputHandler {
    /// A handler with both channels empty.
    pub fn new() -> (r: OutputHandler)
        ensures
            r@.stdout == Seq::<char>::empty(),
            r@.stderr == Seq::<char>::empty(),
    {
        OutputHandler { stdout: String::new(), stderr: String::new() }
    }

    /// The standard-output text collected so far.
    pub fn stdout(&self) -> (r: String)
        ensures
            r@ == self@.stdout,
    {
        self.stdout.clone()
    }

    /// The standard-error text collected so far.
    pub fn stderr(&self) -> (r: String)
        ensures
            r@ == self@.stderr,
    {
        self.stderr.clone()
    }

    /// Appends a line of standard output, preceded by a newline separator.
    pub fn add_stdout(&mut self, output: String)
        ensures
            final(self)@.stdout == old(self)@.stdout + seq!['\n'] + output@,
            final(self)@.stderr == old(self)@.stderr,
    {
        proof {
            reveal_strlit("\n");
            assert("\n"@ =~= seq!['\n']);
        }
        self.stdout.append("\n");
        self.stdout.append(output.as_str());
    }

    /// Appends a line of standard output, preceded by a newline separator.
    pub fn add_stdout_str(&mut self, output: &str)
        ensures
            final(self)@.stdout == old(self)@.stdout + seq!['\n'] + output@,
            final(self)@.stderr == old(self)@.stderr,
    {
        proof {
            reveal_strlit("\n");
            assert("\n"@ =~= seq!['\n']);
        }
        self.stdout.append("\n");
        self.stdout.append(output);
    }

    /// Appends a line of standard error, preceded by a newline separator.
    pub fn add_stderr(&mut self, output: String)
        ensures
            final(self)@.stderr == old(self)@.stderr + seq!['\n'] + output@,
            final(self)@.stdout == old(self)@.stdout,
    {
        proof {
            reveal_strlit("\n");
            assert("\n"@ =~= seq!['\n']);
        }
        self.stderr.append("\n");
        self.stderr.append(output.as_str());
    }

    /// Appends a line of standard error, preceded by a newline separator.
    pub fn add_stderr_str(&mut self, output: &str)
        ensures
            final(self)@.stderr == old(self)@.stderr + seq!['\n'] + output@,
            final(self)@.stdout == old(self)@.stdout,
    {
        proof {
            reveal_strlit("\n");
            assert("\n"@ =~= seq!['\n']);
        }
        self.stderr.append("\n");
        self.stderr.append(output);
    }

    /// The terminal rendering of the buffered channels: standard error first,
    /// then standard output, each followed by a newline.
    pub fn display(&self) -> (r: String)
        ensures
            r@ == self@.stderr + seq!['\n'] + self@.stdout + seq!['\n'],
    {
        proof {
            reveal_strlit("\n");
            assert("\n"@ =~= seq!['\n']);
        }
        let mut r = self.stderr.clone();
        r.append("\n");
        r.append(self.stdout.as_str());
        r.append("\n");
        r
    }

    /// Empties the standard-output channel.
    pub fn clear_stdout(&mut self)
        ensures
            final(self)@.stdout == Seq::<char>::empty(),
            final(self)@.stderr == old(self)@.stderr,
    {
        self.stdout = String::new();
    }

    /// Empties the standard-error channel.
    pub fn clear_stderr(&mut self)
        ensures
            final(self)@.stderr == Seq::<char>::empty(),
            final(self)@.stdout == old(self)@.stdout,
    {
        self.stderr = String::new();
    }

    /// Empties both channels.
    pub fn clear(&mut self)
        ensures
            final(self)@.stdout == Seq::<char>::empty(),
            final(self)@.stderr == Seq::<char>::empty(),
    {
        self.clear_stderr();
        self.clear_stdout();
    }
}

} // verus!
