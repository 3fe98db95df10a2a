//! Reading compiler diagnostics out of `cargo check --message-format=json`.
use vstd::prelude::*;
pub use crate::tools::cargo_build::{
    CargoMessage, CompilerMessage, Diagnostic, DiagnosticLevel, Span,
};
use crate::tools::cargo_build::{messages_at, reports, split_diagnostics};
use crate::text::string_from;

verus! {

/// What a `cargo check` run reported.
#[derive(Debug)]
pub struct Output {
    pub success: bool,
    pub errors: Vec<Diagnostic>,
    pub warnings: Vec<Diagnostic>,
    pub error_count: u32,
    pub warning_count: u32,
    pub error: Option<String>,
}

/// Summarise a finished `cargo check` run from its parsed output lines
/// (`None` for a line that is not a cargo message), its standard error and
/// whether it exited successfully.
pub fn summarize_check(msgs: &Vec<Option<CargoMessage>>, stderr: &str, exit_ok: bool) -> (r: Output)
    ensures
        r.success == exit_ok,
        r.errors@.len() == messages_at(msgs@, DiagnosticLevel::Error).len(),
        forall|j: int|
            0 <= j < r.errors@.len() ==> reports(
                #[trigger] r.errors@[j],
                messages_at(msgs@, DiagnosticLevel::Error)[j],
            ),
        r.warnings@.len() == messages_at(msgs@, DiagnosticLevel::Warning).len(),
        forall|j: int|
            0 <= j < r.warnings@.len() ==> reports(
                #[trigger] r.warnings@[j],
                messages_at(msgs@, DiagnosticLevel::Warning)[j],
            ),
        r.error_count == r.errors@.len() as u32,
        r.warning_count == r.warnings@.len() as u32,
        match r.error {
            Some(e) => r.errors@.len() == 0 && r.warnings@.len() == 0 && !exit_ok && stderr@.len()
                > 0 && e@ == stderr@,
            None => !(r.errors@.len() == 0 && r.warnings@.len() == 0 && !exit_ok && stderr@.len()
                > 0),
        },
{
    let (errors, warnings) = split_diagnostics(msgs);
    let error_count = errors.len() as u32;
    let warning_count = warnings.len() as u32;
    let error = if errors.len() == 0 && warnings.len() == 0 && !exit_ok && crate::text::chars_of(
        stderr,
    ).len() > 0 {
        Some(string_from(stderr))
    } else {
        None
    };
    Output { success: exit_ok, errors, warnings, error_count, warning_count, error }
}

/// The `cargo_check` tool.
pub struct CargoCheck;

impl CargoCheck {
    /// The tool's name.
    pub fn name() -> (r: &'static str)
        ensures
            r@ == "cargo_check"@,
    {
        "cargo_check"
    }

    /// The tool's description.
    pub fn description() -> (r: &'static str)
        ensures
            r@ == "Run cargo check to validate code without building"@,
    {
        "Run cargo check to validate code without building"
    }
}

} // verus!
