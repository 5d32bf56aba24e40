//! Standard output, as the logger reaches it.
//!
//! Writing a line yields a [`LineOut`], a record of the line handed to
//! standard output. Only [`stdout_write_line`] makes one, so a record of
//! lines kept as `LineOut` values holds exactly the lines that were written.

use vstd::prelude::*;

use std::io::Write;

verus! {

#[verifier::external_type_specification]
#[verifier::external_body]
pub struct ExStdout(std::io::Stdout);

/// The record of one line handed to standard output.
pub struct LineOut {
    line: Ghost<Seq<char>>,
}

impl LineOut {
    /// The line that was handed over.
    pub closed spec fn line(&self) -> Seq<char> {
        self.line@
    }
}

/// `std::io::stdout`: the handle of the process's standard output. Nothing
/// is stated of it.
#[verifier::external_body]
pub(crate) fn stdout_handle() -> std::io::Stdout {
    std::io::stdout()
}

/// `writeln!` of `line` to standard output; the result records that `line`
/// was the line handed over. A write error is ignored, as a log line that
/// cannot be written has nowhere else to go: what the process's output
/// finally holds is not stated.
#[verifier::external_body]
pub(crate) fn stdout_write_line(out: &mut std::io::Stdout, line: &str) -> (w: LineOut)
    ensures
        w.line() == line@,
{
    let _ = writeln!(out, "{}", line);
    LineOut { line: Ghost(line@) }
}

} // verus!
