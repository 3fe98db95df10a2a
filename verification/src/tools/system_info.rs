//! The system information tool's report.
use vstd::prelude::*;
use crate::tools::check_command::{first_line_trimmed, first_trimmed_line};

verus! {

/// The `system_info` tool.
pub struct SystemInfo;

impl SystemInfo {
    /// The tool's name.
    pub fn name() -> (r: &'static str)
        ensures
            r@ == "system_info"@,
    {
        "system_info"
    }

    /// The tool's description.
    pub fn description() -> (r: &'static str)
        ensures
            r@ == "Get system information including OS, architecture, and Rust versions"@,
    {
        "Get system information including OS, architecture, and Rust versions"
    }
}

/// What the system information tool reports.
#[derive(Debug)]
pub struct Output {
    pub os: String,
    pub arch: String,
    pub rust_version: Option<String>,
    pub cargo_version: Option<String>,
    pub cwd: String,
    pub home: Option<String>,
    pub user: Option<String>,
    pub error: Option<String>,
}


/// The version a tool reports for `--version`: the first line of its output,
/// trimmed, when it exited successfully and that line is not blank.
pub fn command_version(exit_ok: bool, stdout: &str) -> (r: Option<String>)
    ensures
        !exit_ok ==> r is None,
        exit_ok ==> match first_trimmed_line(stdout@) {
            Some(t) => r matches Some(x) && x@ == t,
            None => r is None,
        },
{
    if exit_ok {
        first_line_trimmed(stdout)
    } else {
        None
    }
}

} // verus!
