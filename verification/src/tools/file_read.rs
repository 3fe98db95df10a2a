//! Selecting a range of a file's lines.
use vstd::prelude::*;
use crate::text::{chars_of, copy_range, dec, decimal, extend, extend_str, join, join_with, lines, lines_of, string_of, views};

verus! {

/// What reading a file gave.
#[derive(Debug)]
pub struct Output {
    pub success: bool,
    pub content: Option<String>,
    pub line_count: Option<u32>,
    pub error: Option<String>,
}

/// First selected line, 0-based: one before `start_line`, 0 when absent.
pub open spec fn first_line(start_line: Option<u32>) -> int {
    match start_line {
        Some(s) => if s == 0 {
            0
        } else {
            s - 1
        },
        None => 0,
    }
}

/// One past the last selected line, within `n` lines.
pub open spec fn end_line_of(end_line: Option<u32>, n: int) -> int {
    match end_line {
        Some(e) => if e < n {
            e as int
        } else {
            n
        },
        None => n,
    }
}

/// Select lines `start_line..=end_line` (1-based, both optional) of
/// `contents`, joined with newlines. A start past the end is refused.
pub fn select_lines(contents: &str, start_line: Option<u32>, end_line: Option<u32>) -> (r: Output)
    requires
        ({
            let n = lines_of(contents@).len() as int;
            first_line(start_line) < n ==> first_line(start_line) <= end_line_of(end_line, n)
        }),
    ensures
        ({
            let ls = lines_of(contents@);
            let n = ls.len() as int;
            let s = first_line(start_line);
            &&& r.line_count == Some(n as u32)
            &&& if s >= n {
                &&& !r.success && r.content is None
                &&& r.error matches Some(e) && e@ == "Start line "@ + dec((s + 1) as nat) + " exceeds file length of "@
                    + dec((n as u32) as nat) + " lines"@
            } else {
                &&& r.success && r.error is None
                &&& r.content matches Some(c) && c@ == join(ls.subrange(s, end_line_of(end_line, n)), "\n"@)
            }
        }),
{
    let ls = lines(chars_of(contents).as_slice());
    let n = ls.len();
    let total = n as u32;
    let start: usize = match start_line {
        Some(s) => if s == 0 {
            0
        } else {
            (s - 1) as usize
        },
        None => 0,
    };
    if start >= n {
        let mut e = chars_of("Start line ");
        extend(&mut e, decimal((start as u64) + 1).as_slice());
        extend_str(&mut e, " exceeds file length of ");
        extend(&mut e, decimal(total as u64).as_slice());
        extend_str(&mut e, " lines");
        return Output { success: false, content: None, line_count: Some(total), error: Some(string_of(e.as_slice())) };
    }
    let end: usize = match end_line {
        Some(e) => if (e as usize) < n {
            e as usize
        } else {
            n
        },
        None => n,
    };
    let part = copy_range(&ls, start, end);
    let joined = join_with(part.as_slice(), chars_of("\n").as_slice());
    Output { success: true, content: Some(string_of(joined.as_slice())), line_count: Some(total), error: None }
}

/// The `read_file` tool.
pub struct ReadFile;

impl ReadFile {
    /// The tool's name.
    pub fn name() -> (r: &'static str)
        ensures
            r@ == "read_file"@,
    {
        "read_file"
    }

    /// The tool's description.
    pub fn description() -> (r: &'static str)
        ensures
            r@ == "Read file contents with optional line range. Prefer native Read tool for general file access; use this when reading within MCP workspace scope."@,
    {
        "Read file contents with optional line range. Prefer native Read tool for general file access; use this when reading within MCP workspace scope."
    }
}

} // verus!
