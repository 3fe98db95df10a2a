//! The report on whether a command exists.
use vstd::prelude::*;
use crate::text::{chars_of, lines, lines_of, string_of, trim, trim_of};

verus! {

/// The `check_command` tool.
pub struct CheckCommand;

impl CheckCommand {
    /// The tool's name.
    pub fn name() -> (r: &'static str)
        ensures
            r@ == "check_command"@,
    {
        "check_command"
    }

    /// The tool's description.
    pub fn description() -> (r: &'static str)
        ensures
            r@ == "Check if a command exists and get its path and version"@,
    {
        "Check if a command exists and get its path and version"
    }
}

/// Whether a command exists, where, and its version.
#[derive(Debug)]
pub struct Output {
    pub exists: bool,
    pub path: Option<String>,
    pub version: Option<String>,
    pub error: Option<String>,
}


/// The first line of `s`, trimmed, unless there is none or it is blank.
pub open spec fn first_trimmed_line(s: Seq<char>) -> Option<Seq<char>> {
    let ls = lines_of(s);
    if ls.len() == 0 {
        None
    } else if trim(ls[0]).len() == 0 {
        None
    } else {
        Some(trim(ls[0]))
    }
}

/// The version a command printed for a version flag: nothing unless it
/// exited successfully or wrote to its standard output; then the first line
/// of its standard output, or of its standard error when the output is
/// blank.
pub open spec fn version_text(exit_ok: bool, out: Seq<char>, err: Seq<char>) -> Option<Seq<char>> {
    if !exit_ok && out.len() == 0 {
        None
    } else if trim(out).len() > 0 {
        first_trimmed_line(out)
    } else if trim(err).len() > 0 {
        first_trimmed_line(err)
    } else {
        None
    }
}

/// The first line of `s`, trimmed, unless there is none or it is blank.
pub fn first_line_trimmed(s: &str) -> (r: Option<String>)
    ensures
        match first_trimmed_line(s@) {
            Some(t) => r matches Some(x) && x@ == t,
            None => r is None,
        },
{
    let ls = lines(chars_of(s).as_slice());
    if ls.len() == 0 {
        return None;
    }
    let t = trim_of(ls[0].as_slice());
    if t.len() == 0 {
        None
    } else {
        Some(string_of(t.as_slice()))
    }
}

/// The version a command printed for a version flag, from whether it exited
/// successfully and what it wrote to its standard output and error.
pub fn version_from(exit_ok: bool, stdout: &str, stderr: &str) -> (r: Option<String>)
    ensures
        match version_text(exit_ok, stdout@, stderr@) {
            Some(t) => r matches Some(x) && x@ == t,
            None => r is None,
        },
{
    let out = chars_of(stdout);
    if !exit_ok && out.len() == 0 {
        return None;
    }
    if trim_of(out.as_slice()).len() > 0 {
        first_line_trimmed(stdout)
    } else if trim_of(chars_of(stderr).as_slice()).len() > 0 {
        first_line_trimmed(stderr)
    } else {
        None
    }
}

} // verus!
