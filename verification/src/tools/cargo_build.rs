//! Reading compiler diagnostics and built artifacts out of the JSON
//! messages that `cargo build --message-format=json` prints.
use vstd::prelude::*;
use crate::text::{ends_with, ends_with_str, eq_str, string_from};

verus! {

/// Severity of a compiler diagnostic.
#[derive(Debug, Clone, Copy, PartialEq, Eq, Structural)]
pub enum DiagnosticLevel {
    Error,
    Warning,
    Note,
    Help,
    Unknown,
}

/// A diagnostic as the tool reports it.
#[derive(Debug)]
pub struct Diagnostic {
    pub message: String,
    pub file: Option<String>,
    pub line: Option<u32>,
    pub column: Option<u32>,
    pub level: DiagnosticLevel,
}

/// A source span of a compiler message.
#[derive(Debug)]
pub struct Span {
    pub file_name: String,
    pub line_start: u32,
    pub column_start: u32,
    pub is_primary: bool,
}

/// A compiler message; `level` is the name cargo gives the severity.
#[derive(Debug)]
pub struct CompilerMessage {
    pub message: String,
    pub level: String,
    pub spans: Vec<Span>,
}

/// One JSON line of cargo's output.
#[derive(Debug)]
pub struct CargoMessage {
    pub reason: String,
    pub message: Option<CompilerMessage>,
    pub executable: Option<String>,
    pub filenames: Option<Vec<String>>,
}

/// What a `cargo build` run reported.
#[derive(Debug)]
pub struct Output {
    pub success: bool,
    pub errors: Vec<Diagnostic>,
    pub warnings: Vec<Diagnostic>,
    pub artifacts: Vec<String>,
    pub error_count: u32,
    pub warning_count: u32,
    pub error: Option<String>,
}

/// The level named `name` (lowercase names; anything else is unknown).
pub open spec fn level_named(name: Seq<char>) -> DiagnosticLevel {
    if name == "error"@ {
        DiagnosticLevel::Error
    } else if name == "warning"@ {
        DiagnosticLevel::Warning
    } else if name == "note"@ {
        DiagnosticLevel::Note
    } else if name == "help"@ {
        DiagnosticLevel::Help
    } else {
        DiagnosticLevel::Unknown
    }
}

/// Index of the first primary span at or after `i`.
pub open spec fn first_primary(spans: Seq<Span>, i: int) -> Option<int>
    decreases spans.len() - i,
{
    if i < 0 || i >= spans.len() {
        None
    } else if spans[i].is_primary {
        Some(i)
    } else {
        first_primary(spans, i + 1)
    }
}

/// The span a diagnostic points at: the first primary one, else the first.
pub open spec fn chosen_span(spans: Seq<Span>) -> Option<int> {
    match first_primary(spans, 0) {
        Some(i) => Some(i),
        None => if spans.len() > 0 {
            Some(0)
        } else {
            None
        },
    }
}

/// `d` reports the compiler message `m`.
pub open spec fn reports(d: Diagnostic, m: CompilerMessage) -> bool {
    &&& d.message@ == m.message@
    &&& d.level == level_named(m.level@)
    &&& match chosen_span(m.spans@) {
        Some(i) => {
            let s = m.spans@[i];
            &&& d.file matches Some(f) && f@ == s.file_name@
            &&& d.line == Some(s.line_start)
            &&& d.column == Some(s.column_start)
        },
        None => d.file is None && d.line is None && d.column is None,
    }
}

/// The compiler messages among `msgs` whose level is `level`.
pub open spec fn messages_at(msgs: Seq<Option<CargoMessage>>, level: DiagnosticLevel) -> Seq<
    CompilerMessage,
>
    decreases msgs.len(),
{
    if msgs.len() == 0 {
        seq![]
    } else {
        let rest = messages_at(msgs.drop_last(), level);
        match msgs.last() {
            Some(m) => if m.reason@ == "compiler-message"@ {
                match m.message {
                    Some(c) => if level_named(c.level@) == level {
                        rest.push(c)
                    } else {
                        rest
                    },
                    None => rest,
                }
            } else {
                rest
            },
            None => rest,
        }
    }
}

/// Artifact files worth reporting: not dependency or metadata files.
pub open spec fn kept_files(files: Seq<Seq<char>>) -> Seq<Seq<char>>
    decreases files.len(),
{
    if files.len() == 0 {
        seq![]
    } else {
        let rest = kept_files(files.drop_last());
        let f = files.last();
        if !ends_with(f, ".d"@) && !ends_with(f, ".rmeta"@) {
            rest.push(f)
        } else {
            rest
        }
    }
}

/// The artifacts that `msgs` report: each executable, or else the kept
/// files of a `compiler-artifact` message.
pub open spec fn artifacts_of(msgs: Seq<Option<CargoMessage>>) -> Seq<Seq<char>>
    decreases msgs.len(),
{
    if msgs.len() == 0 {
        seq![]
    } else {
        let rest = artifacts_of(msgs.drop_last());
        match msgs.last() {
            Some(m) => if m.reason@ == "compiler-artifact"@ {
                match m.executable {
                    Some(e) => rest.push(e@),
                    None => match m.filenames {
                        Some(fs) => rest + kept_files(crate::text::strs(fs@)),
                        None => rest,
                    },
                }
            } else {
                rest
            },
            None => rest,
        }
    }
}

impl DiagnosticLevel {
    /// The level cargo names `name`.
    pub fn from_name(name: &str) -> (l: DiagnosticLevel)
        ensures
            l == level_named(name@),
    {
        if eq_str(name, "error") {
            DiagnosticLevel::Error
        } else if eq_str(name, "warning") {
            DiagnosticLevel::Warning
        } else if eq_str(name, "note") {
            DiagnosticLevel::Note
        } else if eq_str(name, "help") {
            DiagnosticLevel::Help
        } else {
            DiagnosticLevel::Unknown
        }
    }
}

fn span_index(spans: &Vec<Span>) -> (r: Option<usize>)
    ensures
        match chosen_span(spans@) {
            Some(i) => r == Some(i as usize),
            None => r is None,
        },
        r matches Some(k) ==> k < spans@.len() && chosen_span(spans@) == Some(k as int),
{
    let mut i: usize = 0;
    while i < spans.len()
        invariant
            i <= spans@.len(),
            first_primary(spans@, 0) == first_primary(spans@, i as int),
        decreases spans@.len() - i,
    {
        if spans[i].is_primary {
            return Some(i);
        }
        i = i + 1;
    }
    if spans.len() > 0 {
        Some(0)
    } else {
        None
    }
}

/// The diagnostic that reports `m`.
pub fn diagnostic_of(m: &CompilerMessage) -> (d: Diagnostic)
    ensures
        reports(d, *m),
{
    let level = DiagnosticLevel::from_name(m.level.as_str());
    let message = string_from(m.message.as_str());
    match span_index(&m.spans) {
        Some(i) => {
            let s = &m.spans[i];
            let d = Diagnostic {
                message,
                file: Some(string_from(s.file_name.as_str())),
                line: Some(s.line_start),
                column: Some(s.column_start),
                level,
            };
            d
        },
        None => Diagnostic { message, file: None, line: None, column: None, level },
    }
}

/// The errors and the warnings among the compiler messages of `msgs`, in
/// order; notes, help and unknown levels are left out.
pub fn split_diagnostics(msgs: &Vec<Option<CargoMessage>>) -> (r: (Vec<Diagnostic>, Vec<Diagnostic>))
    ensures
        r.0@.len() == messages_at(msgs@, DiagnosticLevel::Error).len(),
        forall|j: int|
            0 <= j < r.0@.len() ==> reports(
                #[trigger] r.0@[j],
                messages_at(msgs@, DiagnosticLevel::Error)[j],
            ),
        r.1@.len() == messages_at(msgs@, DiagnosticLevel::Warning).len(),
        forall|j: int|
            0 <= j < r.1@.len() ==> reports(
                #[trigger] r.1@[j],
                messages_at(msgs@, DiagnosticLevel::Warning)[j],
            ),
{
    let mut errors: Vec<Diagnostic> = Vec::new();
    let mut warnings: Vec<Diagnostic> = Vec::new();
    let mut i: usize = 0;
    while i < msgs.len()
        invariant
            i <= msgs@.len(),
            errors@.len() == messages_at(msgs@.take(i as int), DiagnosticLevel::Error).len(),
            forall|j: int|
                0 <= j < errors@.len() ==> reports(
                    #[trigger] errors@[j],
                    messages_at(msgs@.take(i as int), DiagnosticLevel::Error)[j],
                ),
            warnings@.len() == messages_at(msgs@.take(i as int), DiagnosticLevel::Warning).len(),
            forall|j: int|
                0 <= j < warnings@.len() ==> reports(
                    #[trigger] warnings@[j],
                    messages_at(msgs@.take(i as int), DiagnosticLevel::Warning)[j],
                ),
        decreases msgs@.len() - i,
    {
        proof {
            assert(msgs@.take(i + 1).drop_last() =~= msgs@.take(i as int));
            assert(msgs@.take(i + 1).last() == msgs@[i as int]);
        }
        if let Some(m) = &msgs[i] {
            if eq_str(m.reason.as_str(), "compiler-message") {
                if let Some(c) = &m.message {
                    let d = diagnostic_of(c);
                    match d.level {
                        DiagnosticLevel::Error => errors.push(d),
                        DiagnosticLevel::Warning => warnings.push(d),
                        _ => {},
                    }
                }
            }
        }
        i = i + 1;
    }
    proof {
        assert(msgs@.take(i as int) =~= msgs@);
    }
    (errors, warnings)
}

/// The artifacts that `msgs` report, in order.
pub fn collect_artifacts(msgs: &Vec<Option<CargoMessage>>) -> (r: Vec<String>)
    ensures
        crate::text::strs(r@) == artifacts_of(msgs@),
{
    let mut out: Vec<String> = Vec::new();
    let mut i: usize = 0;
    while i < msgs.len()
        invariant
            i <= msgs@.len(),
            crate::text::strs(out@) == artifacts_of(msgs@.take(i as int)),
        decreases msgs@.len() - i,
    {
        proof {
            assert(msgs@.take(i + 1).drop_last() =~= msgs@.take(i as int));
            assert(msgs@.take(i + 1).last() == msgs@[i as int]);
        }
        if let Some(m) = &msgs[i] {
            if eq_str(m.reason.as_str(), "compiler-artifact") {
                match &m.executable {
                    Some(e) => {
                        let ghost before = out@;
                        let es = string_from(e.as_str());
                        out.push(es);
                        proof {
                            assert(out@ == before.push(es));
                            assert(crate::text::strs(out@) =~= crate::text::strs(before).push(e@));
                        }
                    },
                    None => match &m.filenames {
                        Some(fs) => {
                            let ghost before = crate::text::strs(out@);
                            let mut k: usize = 0;
                            while k < fs.len()
                                invariant
                                    k <= fs@.len(),
                                    crate::text::strs(out@) == before + kept_files(
                                        crate::text::strs(fs@).take(k as int),
                                    ),
                                decreases fs@.len() - k,
                            {
                                proof {
                                    assert(crate::text::strs(fs@).take(k + 1).drop_last()
                                        =~= crate::text::strs(fs@).take(k as int));
                                }
                                let f = fs[k].as_str();
                                if !ends_with_str(crate::text::chars_of(f).as_slice(), ".d")
                                    && !ends_with_str(crate::text::chars_of(f).as_slice(), ".rmeta") {
                                    let ghost prev = out@;
                                    let fstr = string_from(f);
                                    out.push(fstr);
                                    proof {
                                        assert(out@ == prev.push(fstr));
                                        assert(crate::text::strs(out@) =~= crate::text::strs(prev).push(f@));
                                        assert(crate::text::strs(fs@).take(k + 1).last() == f@);
                                    }
                                } else {
                                    proof {
                                        assert(crate::text::strs(fs@).take(k + 1).last() == f@);
                                    }
                                }
                                k = k + 1;
                            }
                            proof {
                                assert(crate::text::strs(fs@).take(k as int) =~= crate::text::strs(fs@));
                            }
                        },
                        None => {},
                    },
                }
            }
        }
        i = i + 1;
    }
    proof {
        assert(msgs@.take(i as int) =~= msgs@);
    }
    out
}

/// Summarise a finished `cargo build` run from its parsed output lines
/// (`None` for a line that is not a cargo message), its standard error and
/// whether it exited successfully.
pub fn summarize_build(msgs: &Vec<Option<CargoMessage>>, stderr: &str, exit_ok: bool) -> (r: Output)
    ensures
        r.success == exit_ok,
        r.errors@.len() == messages_at(msgs@, DiagnosticLevel::Error).len(),
        forall|j: int|
            0 <= j < r.errors@.len() ==> reports(
                #[trigger] r.errors@[j],
                messages_at(msgs@, DiagnosticLevel::Error)[j],
            ),
        r.warnings@.len() == messages_at(msgs@, DiagnosticLevel::Warning).len(),
        forall|j: int|
            0 <= j < r.warnings@.len() ==> reports(
                #[trigger] r.warnings@[j],
                messages_at(msgs@, DiagnosticLevel::Warning)[j],
            ),
        crate::text::strs(r.artifacts@) == artifacts_of(msgs@),
        r.error_count == r.errors@.len() as u32,
        r.warning_count == r.warnings@.len() as u32,
        match r.error {
            Some(e) => r.errors@.len() == 0 && r.warnings@.len() == 0 && !exit_ok && stderr@.len()
                > 0 && e@ == stderr@,
            None => !(r.errors@.len() == 0 && r.warnings@.len() == 0 && !exit_ok && stderr@.len()
                > 0),
        },
{
    let (errors, warnings) = split_diagnostics(msgs);
    let artifacts = collect_artifacts(msgs);
    let error_count = errors.len() as u32;
    let warning_count = warnings.len() as u32;
    let error = if errors.len() == 0 && warnings.len() == 0 && !exit_ok && crate::text::chars_of(
        stderr,
    ).len() > 0 {
        Some(string_from(stderr))
    } else {
        None
    };
    Output { success: exit_ok, errors, warnings, artifacts, error_count, warning_count, error }
}

/// The `cargo_build` tool.
pub struct CargoBuild;

impl CargoBuild {
    /// The tool's name.
    pub fn name() -> (r: &'static str)
        ensures
            r@ == "cargo_build"@,
    {
        "cargo_build"
    }

    /// The tool's description.
    pub fn description() -> (r: &'static str)
        ensures
            r@ == "Run cargo build to compile the project"@,
    {
        "Run cargo build to compile the project"
    }
}

} // verus!
