use mcp_rag::json::Json;
use mcp_rag::tools::cargo_build::{
    collect_artifacts, summarize_build, CargoMessage, CompilerMessage, Diagnostic, DiagnosticLevel, Span,
};
use mcp_rag::tools::cargo_check::summarize_check;
use mcp_rag::tools::cargo_test::{extract_number, parse_test_output, TestFailure};
use mcp_rag::tools::file_read::select_lines;
use mcp_rag::tools::file_stats::{format_timestamp, is_leap_year};
use mcp_rag::tools::grep::{search_checked, search_lines};
use mcp_rag::tools::health::{check_health, uptime_description, Health};
use mcp_rag::tools::hello::say_hello;
use mcp_rag::tools::json_query::{answer as json_answer, query_value};
use mcp_rag::tools::markdown_query::{answer, get_section, list_headings, list_tables, search_content};
use mcp_rag::tools::migration_list::{line_count, parse_migration_name};
use mcp_rag::tools::read_env::{is_sensitive, mask_checked, mask_value, report_one};
use mcp_rag::tools::sqlite_query::{check_query, keep_row, max_rows_of};

#[test]
fn cargo_build_test_diagnostic_struct() {
    let diagnostic = Diagnostic {
        message: "test error".to_string(),
        file: Some("src/main.rs".to_string()),
        line: Some(10),
        column: Some(5),
        level: DiagnosticLevel::Error,
    };
    assert_eq!(diagnostic.message, "test error");
    assert_eq!(diagnostic.file, Some("src/main.rs".to_string()));
    assert_eq!(diagnostic.line, Some(10));
    assert_eq!(diagnostic.column, Some(5));
    assert_eq!(diagnostic.level, DiagnosticLevel::Error);
}

#[test]
fn cargo_check_test_diagnostic_struct() {
    let diagnostic = mcp_rag::tools::cargo_check::Diagnostic {
        message: "test warning".to_string(),
        file: Some("src/lib.rs".to_string()),
        line: Some(20),
        column: Some(10),
        level: mcp_rag::tools::cargo_check::DiagnosticLevel::Warning,
    };
    assert_eq!(diagnostic.message, "test warning");
    assert_eq!(diagnostic.file, Some("src/lib.rs".to_string()));
    assert_eq!(diagnostic.line, Some(20));
    assert_eq!(diagnostic.column, Some(10));
    assert_eq!(diagnostic.level, mcp_rag::tools::cargo_check::DiagnosticLevel::Warning);
}

#[test]
fn cargo_build_test_diagnostic_level_deserialization() {
    assert_eq!(DiagnosticLevel::from_name("error"), DiagnosticLevel::Error);
    assert_eq!(DiagnosticLevel::from_name("warning"), DiagnosticLevel::Warning);
    assert_eq!(DiagnosticLevel::from_name("note"), DiagnosticLevel::Note);
    assert_eq!(DiagnosticLevel::from_name("help"), DiagnosticLevel::Help);
    assert_eq!(DiagnosticLevel::from_name("failure-note"), DiagnosticLevel::Unknown);
}

fn compiler_message(level: &str, text: &str, spans: Vec<Span>) -> Option<CargoMessage> {
    Some(CargoMessage {
        reason: "compiler-message".to_string(),
        message: Some(CompilerMessage { message: text.to_string(), level: level.to_string(), spans }),
        executable: None,
        filenames: None,
    })
}

fn span(file: &str, line: u32, col: u32, primary: bool) -> Span {
    Span { file_name: file.to_string(), line_start: line, column_start: col, is_primary: primary }
}

#[test]
fn build_summary_sorts_diagnostics_and_artifacts() {
    let msgs = vec![
        compiler_message("warning", "unused", vec![span("a.rs", 1, 2, false), span("b.rs", 3, 4, true)]),
        None,
        compiler_message("error", "mismatched types", vec![]),
        compiler_message("note", "just a note", vec![]),
        Some(CargoMessage {
            reason: "compiler-artifact".to_string(),
            message: None,
            executable: None,
            filenames: Some(vec!["libx.rlib".to_string(), "x.d".to_string(), "libx.rmeta".to_string()]),
        }),
        Some(CargoMessage {
            reason: "compiler-artifact".to_string(),
            message: None,
            executable: Some("target/debug/app".to_string()),
            filenames: Some(vec!["ignored".to_string()]),
        }),
    ];
    let out = summarize_build(&msgs, "", false);
    assert!(!out.success);
    assert_eq!(out.error_count, 1);
    assert_eq!(out.warning_count, 1);
    assert_eq!(out.warnings[0].file, Some("b.rs".to_string()));
    assert_eq!(out.warnings[0].line, Some(3));
    assert_eq!(out.errors[0].file, None);
    assert_eq!(out.artifacts, vec!["libx.rlib".to_string(), "target/debug/app".to_string()]);
    assert_eq!(collect_artifacts(&msgs).len(), 2);
    assert!(out.error.is_none());
}

#[test]
fn check_summary_reports_stderr_without_diagnostics() {
    let out = summarize_check(&vec![None], "error: could not find `Cargo.toml`", false);
    assert_eq!(out.error, Some("error: could not find `Cargo.toml`".to_string()));
    let ok = summarize_check(&vec![], "", true);
    assert!(ok.success);
    assert!(ok.error.is_none());
}

#[test]
fn test_extract_number_passed() {
    let line = "test result: ok. 10 passed; 0 failed; 2 ignored";
    assert_eq!(extract_number(line, "passed"), Some(10));
}

#[test]
fn test_extract_number_failed() {
    let line = "test result: FAILED. 5 passed; 3 failed; 1 ignored";
    assert_eq!(extract_number(line, "failed"), Some(3));
}

#[test]
fn test_extract_number_ignored() {
    let line = "test result: ok. 10 passed; 0 failed; 5 ignored";
    assert_eq!(extract_number(line, "ignored"), Some(5));
}

#[test]
fn test_extract_number_not_found() {
    let line = "some random line";
    assert_eq!(extract_number(line, "passed"), None);
}

#[test]
fn test_extract_number_zero() {
    let line = "test result: ok. 0 passed; 0 failed; 0 ignored";
    assert_eq!(extract_number(line, "passed"), Some(0));
    assert_eq!(extract_number(line, "failed"), Some(0));
    assert_eq!(extract_number(line, "ignored"), Some(0));
}

#[test]
fn extract_number_edge_cases() {
    assert_eq!(extract_number("99999999999 passed", "passed"), None);
    assert_eq!(extract_number("a1b22 c passed", "passed"), Some(22));
    assert_eq!(extract_number("7 passed", ""), None);
}

#[test]
fn test_test_failure_struct() {
    let failure = TestFailure {
        name: "test_something".to_string(),
        stdout: Some("test output".to_string()),
        message: Some("assertion failed".to_string()),
    };
    assert_eq!(failure.name, "test_something");
    assert_eq!(failure.stdout, Some("test output".to_string()));
    assert_eq!(failure.message, Some("assertion failed".to_string()));
}

#[test]
fn test_output_is_summarised() {
    let stdout = "running 3 tests\ntest a ... ok\ntest b ... FAILED\ntest b ... FAILED\ntest c ... ignored\n\ntest result: FAILED. 1 passed; 1 failed; 1 ignored; 0 measured\n";
    let out = parse_test_output(stdout, "", false);
    assert!(!out.success);
    assert_eq!((out.passed, out.failed, out.ignored, out.total), (1, 1, 1, 3));
    assert_eq!(out.failures.len(), 1);
    assert_eq!(out.failures[0].name, "b");
    assert!(out.stdout.is_some());
    assert!(out.error.is_none());
    let broken = parse_test_output("", "error[E0425]", false);
    assert_eq!(broken.error, Some("cargo test failed:\nerror[E0425]".to_string()));
    let good = parse_test_output("test result: ok. 2 passed; 0 failed; 0 ignored", "", true);
    assert!(good.success);
    assert!(good.stdout.is_none());
}

#[test]
fn test_format_timestamp() {
    assert_eq!(format_timestamp(0), "1970-01-01T00:00:00Z");
    let result = format_timestamp(1704110400);
    assert!(result.starts_with("2024-01-01"));
}

#[test]
fn format_timestamp_exact_values() {
    assert_eq!(format_timestamp(1704110400), "2024-01-01T12:00:00Z");
    assert_eq!(format_timestamp(951782400), "2000-02-29T00:00:00Z");
    assert_eq!(format_timestamp(86399), "1970-01-01T23:59:59Z");
}

#[test]
fn test_is_leap_year() {
    assert!(is_leap_year(2000));
    assert!(is_leap_year(2024));
    assert!(!is_leap_year(1900));
    assert!(!is_leap_year(2023));
    assert!(is_leap_year(-4));
}

#[test]
fn test_is_sensitive_true() {
    assert!(is_sensitive("MY_SECRET_KEY"));
    assert!(is_sensitive("DATABASE_PASSWORD"));
    assert!(is_sensitive("API_TOKEN"));
    assert!(is_sensitive("AUTH_KEY"));
    assert!(is_sensitive("PRIVATE_DATA"));
}

#[test]
fn test_is_sensitive_false() {
    assert!(!is_sensitive("HOME"));
    assert!(!is_sensitive("PATH"));
    assert!(!is_sensitive("USER"));
    assert!(!is_sensitive("CARGO_HOME"));
}

#[test]
fn test_mask_value_sensitive() {
    assert_eq!(mask_value("MY_SECRET", "abc"), "****");
    assert_eq!(mask_value("API_TOKEN", "mytoken123"), "my****");
}

#[test]
fn test_mask_value_not_sensitive() {
    assert_eq!(mask_value("HOME", "/home/user"), "/home/user");
    assert_eq!(mask_value("PATH", "/usr/bin"), "/usr/bin");
}

#[test]
fn mask_checked_refuses_split_characters() {
    assert_eq!(mask_checked("my_secret", "\u{20ac}uvwxyz"), None);
    assert_eq!(mask_checked("my_secret", "\u{e9}uvwxyz"), Some("\u{e9}****".to_string()));
    assert_eq!(mask_checked("HOME", "\u{20ac}uvwxyz"), Some("\u{20ac}uvwxyz".to_string()));
}

#[test]
fn test_read_env_nonexistent() {
    let out = report_one("DEFINITELY_NOT_SET", None);
    assert_eq!(out.count, 0);
    assert!(out.error.unwrap().contains("not found"));
    let set = report_one("API_TOKEN", Some("abcdef"));
    assert_eq!(set.count, 1);
    assert_eq!(set.variables[0].value, "ab****");
}

const SAMPLE_MD: &str = r#"# Project Title

Some intro text.

## Installation

Run `cargo install`.

### Prerequisites

- Rust 1.70+
- Git

## Usage

| Command | Description |
|---------|-------------|
| build   | Build project |
| test    | Run tests |

## API Reference

Another section here.
"#;

#[test]
fn test_list_headings() {
    let headings = list_headings(SAMPLE_MD);
    assert_eq!(headings.len(), 5);
    assert_eq!(headings[0].level, 1);
    assert_eq!(headings[0].text, "Project Title");
    assert_eq!(headings[2].level, 3);
    assert_eq!(headings[2].text, "Prerequisites");
    assert_eq!(headings[2].line, 9);
}

#[test]
fn test_get_section() {
    let section = get_section(SAMPLE_MD, "Installation").unwrap();
    assert!(section.contains("cargo install"));
    assert!(section.contains("Prerequisites"));
    assert!(!section.contains("API Reference"));
}

#[test]
fn test_get_section_not_found() {
    let out = answer(SAMPLE_MD, "get_section", Some("Nonexistent"));
    assert!(!out.success);
    assert!(out.error.unwrap().contains("not found"));
}

#[test]
fn test_list_tables() {
    let tables = list_tables(SAMPLE_MD);
    assert_eq!(tables.len(), 1);
    assert!(tables[0].contains("Command"));
    assert!(tables[0].contains("build"));
}

#[test]
fn test_search_content() {
    let matches = search_content(SAMPLE_MD, "cargo");
    assert!(!matches.is_empty());
    assert!(matches[0].text.contains("cargo"));
    assert_eq!(matches[0].line, 7);
}

#[test]
fn test_unknown_action() {
    let out = answer(SAMPLE_MD, "invalid", None);
    assert!(!out.success);
    assert!(out.error.unwrap().contains("Unknown action"));
}

#[test]
fn search_is_capped_at_one_hundred() {
    let doc = "hit\n".repeat(150);
    assert_eq!(search_content(&doc, "HIT").len(), 100);
}

#[test]
fn test_grep_file_basic() {
    let out = search_lines("hello world\nfoo bar\nhello again", "hello", true);
    assert!(out.success);
    assert_eq!(out.total_matches, 2);
    assert_eq!(out.matches[0].line_number, 1);
    assert_eq!(out.matches[1].line_number, 3);
}

#[test]
fn test_grep_file_case_insensitive() {
    let out = search_lines("Hello World\nHELLO again", "hello", false);
    assert_eq!(out.total_matches, 2);
}

#[test]
fn test_grep_file_case_sensitive() {
    let out = search_lines("Hello World\nhello again", "hello", true);
    assert_eq!(out.total_matches, 1);
    assert_eq!(out.matches[0].line_number, 2);
}

#[test]
fn test_grep_file_no_matches() {
    let out = search_lines("alpha\nbeta", "gamma", true);
    assert_eq!(out.total_matches, 0);
}

#[test]
fn test_grep_file_multiple_matches_same_line() {
    let out = search_lines("foo foo foo", "foo", true);
    assert_eq!(out.total_matches, 3);
    assert_eq!(out.matches[0].column, 1);
    assert_eq!(out.matches[1].column, 5);
    assert_eq!(out.matches[2].column, 9);
}

#[test]
fn test_grep_empty_pattern() {
    let out = search_lines("ab\ncd", "", true);
    assert_eq!(out.total_matches, 2);
    assert_eq!(out.matches[0].column, 1);
}

#[test]
fn grep_columns_count_bytes() {
    let out = search_lines("\u{e9}t\u{e9} ok", "ok", true);
    assert_eq!(out.matches[0].column, 7);
    assert!(search_checked("caf\u{e9}", "\u{e9}", true).is_none());
    assert!(search_checked("cafe", "e", true).is_some());
}

#[test]
fn test_read_file_with_line_range() {
    let out = select_lines("line1\nline2\nline3\nline4", Some(2), Some(3));
    assert!(out.success);
    assert_eq!(out.content, Some("line2\nline3".to_string()));
    assert_eq!(out.line_count, Some(4));
}

#[test]
fn test_read_file_start_line_exceeds_length() {
    let out = select_lines("line1\nline2", Some(10), None);
    assert!(!out.success);
    assert_eq!(out.error, Some("Start line 10 exceeds file length of 2 lines".to_string()));
}

#[test]
fn test_read_file_success() {
    let out = select_lines("line1\nline2\nline3", None, None);
    assert_eq!(out.content, Some("line1\nline2\nline3".to_string()));
}

fn obj(entries: Vec<(&str, Json)>) -> Json {
    Json::Object(entries.into_iter().map(|(k, v)| (k.to_string(), v)).collect())
}

#[test]
fn test_query_nested() {
    let doc = obj(vec![("package", obj(vec![("name", Json::Str("demo".to_string()))]))]);
    let v = query_value(&doc, "package.name").unwrap();
    assert!(matches!(v, Json::Str(s) if s == "demo"));
}

#[test]
fn test_query_array_index() {
    let doc = obj(vec![("deps", Json::Array(vec![obj(vec![("name", Json::Str("a".to_string()))]), obj(vec![("name", Json::Str("b".to_string()))])]))]);
    let v = query_value(&doc, "deps.1.name").unwrap();
    assert!(matches!(v, Json::Str(s) if s == "b"));
    assert!(query_value(&doc, "deps.2.name").is_none());
    assert!(query_value(&doc, "deps.x").is_none());
}

#[test]
fn test_query_not_found() {
    let doc = obj(vec![("a", Json::Null)]);
    let out = json_answer(&doc, Some("b.c"));
    assert!(!out.success);
    assert_eq!(out.error, Some("Query path not found: b.c".to_string()));
}

#[test]
fn test_list_migrations() {
    let (n, name) = parse_migration_name("001_create_users.sql").unwrap();
    assert_eq!(n, 1);
    assert_eq!(name, "create_users");
    assert!(parse_migration_name("readme.md").is_none());
    assert!(parse_migration_name("abc_x.sql").is_none());
    assert!(parse_migration_name("nounderscore.sql").is_none());
}

#[test]
fn test_migration_line_counts() {
    assert_eq!(line_count("CREATE TABLE a;\nCREATE TABLE b;\n"), 2);
    assert_eq!(line_count(""), 0);
}

#[test]
fn test_health_status_determination() {
    let (status, error) = check_health(true, 3);
    assert_eq!(status, "healthy");
    assert!(error.is_none());
    let (status, error) = check_health(true, 0);
    assert_eq!(status, "degraded");
    assert_eq!(error, Some("No tools are registered".to_string()));
}

#[test]
fn test_uptime_tracking() {
    let mut h = Health::new();
    assert_eq!(h.get_uptime_seconds(5_000_000_000), 0);
    h.initialize(22, 1_000_000_000);
    h.initialize(23, 9_000_000_000);
    assert_eq!(h.get_tools_count(), 23);
    assert_eq!(h.get_uptime_seconds(3_500_000_000), 2);
    assert_eq!(uptime_description(59), "59 seconds");
    assert_eq!(uptime_description(7200), "2 hours");
    assert_eq!(uptime_description(200000), "2 days");
}

#[test]
fn test_say_hello_basic() {
    let out = say_hello("World");
    assert!(out.message.contains("World"));
    assert!(out.message.contains("Hello"));
    assert_eq!(out.message, "Hello, World! \u{1f980}");
}

#[test]
fn test_say_hello_with_special_chars() {
    assert!(say_hello("Test User 123!").message.contains("Test User 123!"));
}

#[test]
fn test_say_hello_empty_name() {
    assert!(say_hello("").message.contains("Hello"));
}

#[test]
fn test_write_query_rejected() {
    let out = check_query("DELETE FROM users").unwrap();
    assert!(!out.success);
    assert!(check_query("  select * from t").is_none());
    assert!(check_query("pragma table_info(t)").is_none());
}

#[test]
fn test_max_rows_truncation() {
    assert_eq!(max_rows_of(None), 500);
    assert_eq!(max_rows_of(Some(2)), 2);
    assert!(keep_row(1, 2));
    assert!(!keep_row(2, 2));
}

// ── project search ──────────────────────────────────────────────────────

use mcp_rag::tools::grep_project::{
    file_selected, line_matcher, optional_glob, path_not_found, starts_in, Output as ProjectOutput, ProjectSearch,
};

const PROJECT: [(&str, &str); 3] = [
    ("proj/main.rs", "fn main() {\n    println!(\"Hello\");\n}\n"),
    ("proj/lib.rs", "pub fn hello() {\n    println!(\"Hello from lib\");\n}\n"),
    ("proj/readme.txt", "This is a readme file\nHello world\n"),
];

fn search_project(
    pattern: &str,
    keep: Option<&str>,
    skip: Option<&str>,
    max_results: Option<u32>,
    case_sensitive: bool,
) -> ProjectOutput {
    let keep = optional_glob(keep);
    let skip = optional_glob(skip);
    let matcher = line_matcher(pattern, case_sensitive);
    let mut search = ProjectSearch::new(max_results);
    for (path, contents) in PROJECT.iter() {
        let name = path.rsplit('/').next().unwrap();
        if !file_selected(&keep, &skip, name, path) {
            continue;
        }
        if search.search_file(path, contents, &matcher).unwrap() {
            break;
        }
    }
    search.finish()
}

#[test]
fn test_grep_project_basic() {
    let output = search_project("Hello", None, None, None, true);
    assert!(output.success);
    assert!(output.total_matches >= 3);
    assert!(output.files_searched >= 2);
}

#[test]
fn test_grep_project_with_include_glob() {
    let output = search_project("Hello", Some("*.rs"), None, None, true);
    assert!(output.success);
    for file_match in &output.matches {
        assert!(file_match.file.ends_with(".rs"));
    }
    assert_eq!(output.files_searched, 2);
}

#[test]
fn test_grep_project_with_exclude_glob() {
    let output = search_project("Hello", None, Some("*.txt"), None, true);
    assert!(output.success);
    for file_match in &output.matches {
        assert!(!file_match.file.ends_with(".txt"));
    }
}

#[test]
fn test_grep_project_case_insensitive() {
    let output = search_project("hello", None, None, None, false);
    assert!(output.success);
    assert!(output.total_matches >= 3);
    assert_eq!(output.total_matches, 4);
}

#[test]
fn test_grep_project_max_results() {
    let output = search_project("Hello", None, None, Some(1), true);
    assert!(output.success);
    assert!(output.total_matches <= 1);
    assert!(output.truncated);
}

#[test]
fn test_grep_project_path_not_found() {
    let output = path_not_found(Some("/nonexistent/path"));
    assert!(!output.success);
    assert!(output.error.is_some());
    assert!(output.error.unwrap().contains("not found"));
    assert_eq!(path_not_found(None).error.unwrap(), "Path not found: <workspace_root>");
}

#[test]
fn test_grep_project_no_matches() {
    let output = search_project("nonexistent_pattern_xyz", None, None, None, true);
    assert!(output.success);
    assert_eq!(output.total_matches, 0);
    assert!(output.matches.is_empty());
}

#[test]
fn project_search_columns_and_fallback() {
    let output = search_project("Hello", None, None, None, true);
    let first = &output.matches[0];
    assert_eq!(first.file, "proj/main.rs");
    assert_eq!(first.matches[0].line_number, 2);
    assert_eq!(first.matches[0].column, 15);
    // An invalid regular expression is searched for as literal text.
    let m = line_matcher("println!(", true);
    assert_eq!(starts_in(&m, "    println!(\"a\"); println!(\"b\")").unwrap(), vec![4, 19]);
    // Case-insensitive search escapes the pattern.
    let m = line_matcher("a.b", false);
    assert_eq!(starts_in(&m, "A.B axb a.b").unwrap(), vec![0, 8]);
}

#[test]
fn truncated_file_is_left_out() {
    let matcher = line_matcher("x", true);
    let mut search = ProjectSearch::new(Some(3));
    assert_eq!(search.search_file("a", "x x", &matcher), Some(false));
    assert_eq!(search.search_file("b", "x\nx", &matcher), Some(true));
    let out = search.finish();
    assert_eq!(out.total_matches, 3);
    assert_eq!(out.matches.len(), 1);
    assert_eq!(out.files_searched, 2);
    assert!(out.truncated);
}

// ── file search ─────────────────────────────────────────────────────────

use mcp_rag::tools::find_files::{path_not_found as files_not_found, FileSearch, Output as FilesOutput};

/// The walk of a test tree: name, path, whether a directory, depth.
const TREE: [(&str, &str, bool, usize); 8] = [
    ("t", "t", true, 0),
    ("file1.rs", "t/file1.rs", false, 1),
    ("file2.rs", "t/file2.rs", false, 1),
    ("readme.txt", "t/readme.txt", false, 1),
    ("subdir", "t/subdir", true, 1),
    ("nested.rs", "t/subdir/nested.rs", false, 2),
    ("data.json", "t/subdir/data.json", false, 2),
    ("x", "t/subdir/x", true, 2),
];

fn find(pattern: &str, max_depth: Option<usize>, max_results: Option<u32>, include_dirs: bool) -> FilesOutput {
    let mut search = match FileSearch::new(pattern, max_results, include_dirs) {
        Ok(s) => s,
        Err(o) => return o,
    };
    for (name, path, is_dir, depth) in TREE.iter() {
        if max_depth.map_or(false, |d| *depth > d) {
            continue;
        }
        if search.offer(name, path, *is_dir) {
            break;
        }
    }
    search.finish()
}

#[test]
fn test_find_files_basic() {
    let output = find("*.rs", None, None, false);
    assert!(output.success);
    assert_eq!(output.count, 3);
    for file in &output.files {
        assert!(file.name.ends_with(".rs"));
        assert!(!file.is_dir);
    }
}

#[test]
fn test_find_files_with_max_depth() {
    let output = find("*.rs", Some(1), None, false);
    assert!(output.success);
    assert_eq!(output.count, 2);
}

#[test]
fn test_find_files_include_dirs() {
    let output = find("*", Some(1), None, true);
    assert!(output.success);
    let dirs: Vec<_> = output.files.iter().filter(|f| f.is_dir).collect();
    assert!(!dirs.is_empty());
}

#[test]
fn test_find_files_max_results() {
    let output = find("*", None, Some(2), false);
    assert!(output.success);
    assert!(output.count <= 2);
    assert!(output.truncated);
}

#[test]
fn test_find_files_path_not_found() {
    let output = files_not_found(Some("/nonexistent/path"));
    assert!(!output.success);
    assert!(output.error.is_some());
    assert!(output.error.unwrap().contains("not found"));
}

#[test]
fn test_find_files_invalid_pattern() {
    let output = find("[invalid", None, None, false);
    assert!(!output.success);
    assert!(output.error.is_some());
    assert!(output.error.unwrap().contains("Invalid glob"));
}

#[test]
fn test_find_files_no_matches() {
    let output = find("*.xyz", None, None, false);
    assert!(output.success);
    assert_eq!(output.count, 0);
    assert!(output.files.is_empty());
}

#[test]
fn find_matches_full_paths_too() {
    let output = find("t/subdir/*", None, None, false);
    let names: Vec<&str> = output.files.iter().map(|f| f.name.as_str()).collect();
    assert_eq!(names, vec!["nested.rs", "data.json"]);
}

// ── ordering ────────────────────────────────────────────────────────────

use mcp_rag::tools::list_dir::{sort_entries, Entry};
use mcp_rag::tools::migration_list::{sort_by_number, Migration};
use mcp_rag::tools::read_env::{sort_by_name, EnvVar};
use mcp_rag::tools::check_command::version_from;
use mcp_rag::tools::just_run::{cap_output, MAX_OUTPUT_BYTES};
use mcp_rag::tools::list_dir::name_selected;
use mcp_rag::tools::read_env::env_selected;
use mcp_rag::tools::system_info::command_version;
use mcp_rag::tools::workspace_info::summarize_metadata;
use mcp_rag::tools::workspace_info::{crate_not_found, find_package};

fn entry(name: &str, is_dir: bool) -> Entry {
    Entry { name: name.to_string(), path: format!("d/{name}"), is_dir, size: if is_dir { None } else { Some(1) } }
}

#[test]
fn test_entries_sorted_dirs_first() {
    let entries = vec![entry("file1.txt", false), entry("b.md", false), entry("subdir", true), entry("Alpha", false)];
    let sorted = sort_entries(&entries);
    assert!(sorted[0].is_dir);
    let names: Vec<&str> = sorted.iter().map(|e| e.name.as_str()).collect();
    assert_eq!(names, vec!["subdir", "Alpha", "b.md", "file1.txt"]);
}

#[test]
fn sort_is_stable_for_equal_keys() {
    let entries = vec![entry("B", false), entry("a", false), entry("b", false)];
    let names: Vec<String> = sort_entries(&entries).into_iter().map(|e| e.name).collect();
    assert_eq!(names, vec!["a", "B", "b"]);
}

#[test]
fn test_read_env_all() {
    let vars = vec![
        EnvVar { name: "PATH".to_string(), value: "/bin".to_string() },
        EnvVar { name: "HOME".to_string(), value: "/root".to_string() },
        EnvVar { name: "CARGO_HOME".to_string(), value: "/c".to_string() },
    ];
    let output = sort_by_name(&vars);
    assert!(!output.is_empty());
    let names: Vec<&str> = output.iter().map(|v| v.name.as_str()).collect();
    let mut sorted = names.clone();
    sorted.sort();
    assert_eq!(names, sorted);
}

#[test]
fn migrations_sorted_by_number() {
    let m = |n: u32, name: &str| Migration {
        number: n,
        name: name.to_string(),
        file_path: format!("m/{n:03}_{name}.sql"),
        line_count: 1,
    };
    let sorted = sort_by_number(&vec![m(3, "c"), m(1, "a"), m(2, "b")]);
    let nums: Vec<u32> = sorted.iter().map(|x| x.number).collect();
    assert_eq!(nums, vec![1, 2, 3]);
}

#[test]
fn list_directory_pattern_filter_ignores_case() {
    assert!(name_selected("Cargo.toml", None));
    assert!(name_selected("Cargo.toml", Some("cargo")));
    assert!(name_selected("README.md", Some(".MD")));
    assert!(!name_selected("src", Some("test")));
    assert!(name_selected("anything", Some("")));
}

#[test]
fn read_env_prefix_filter() {
    assert!(env_selected("HOME", None));
    assert!(env_selected("CARGO_HOME", Some("CARGO_")));
    assert!(!env_selected("HOME", Some("CARGO_")));
    assert!(!env_selected("cargo_home", Some("CARGO_")));
}

#[test]
fn check_command_version_line() {
    assert_eq!(version_from(true, "rustc 1.80.0 (abc)\nmore\n", ""), Some("rustc 1.80.0 (abc)".to_string()));
    assert_eq!(version_from(true, "   \n", "  tool v2  \nx"), Some("tool v2".to_string()));
    assert_eq!(version_from(false, "", "v3"), None);
    assert_eq!(version_from(false, "v4\n", ""), Some("v4".to_string()));
    assert_eq!(version_from(true, "\nv5", ""), None);
    assert_eq!(version_from(true, "", ""), None);
}

#[test]
fn system_info_command_version() {
    assert_eq!(command_version(true, "cargo 1.80.0\n"), Some("cargo 1.80.0".to_string()));
    assert_eq!(command_version(false, "cargo 1.80.0\n"), None);
    assert_eq!(command_version(true, ""), None);
}

#[test]
fn just_run_output_is_capped() {
    assert_eq!(cap_output("short"), ("short".to_string(), false));
    let exact = "a".repeat(MAX_OUTPUT_BYTES);
    assert_eq!(cap_output(&exact), (exact.clone(), false));
    let long = "b".repeat(MAX_OUTPUT_BYTES + 10);
    let (kept, cut) = cap_output(&long);
    assert!(cut);
    assert_eq!(kept, format!("{}\n... [truncated]", "b".repeat(MAX_OUTPUT_BYTES)));
    let wide = format!("{}{}", "é".repeat(MAX_OUTPUT_BYTES / 2), "zz");
    let (kept, cut) = cap_output(&wide);
    assert!(cut);
    assert_eq!(kept, format!("{}\n... [truncated]", "é".repeat(MAX_OUTPUT_BYTES / 2)));
}

fn jo(entries: Vec<(&str, Json)>) -> Json {
    Json::Object(entries.into_iter().map(|(k, v)| (k.to_string(), v)).collect())
}

fn js(v: &str) -> Json {
    Json::Str(v.to_string())
}

fn metadata_doc() -> Json {
    jo(vec![
        (
            "packages",
            Json::Array(vec![
                jo(vec![
                    ("name", js("alpha")),
                    ("version", js("0.1.0")),
                    ("manifest_path", js("/w/alpha/Cargo.toml")),
                    (
                        "dependencies",
                        Json::Array(vec![jo(vec![("name", js("serde"))]), jo(vec![("kind", js("dev"))]), jo(vec![("name", js("regex"))])]),
                    ),
                    ("features", jo(vec![("default", Json::Array(vec![])), ("full", Json::Array(vec![]))])),
                ]),
                jo(vec![("name", js("beta")), ("version", js("0.2.0"))]),
            ]),
        ),
        ("workspace_members", Json::Array(vec![js("alpha 0.1.0"), Json::Null, js("beta 0.2.0")])),
        ("workspace_root", js("/w")),
    ])
}

#[test]
fn workspace_info_summary() {
    let s = summarize_metadata(&metadata_doc());
    assert_eq!(s.get_str("workspace_root"), Some("/w".to_string()));
    assert!(matches!(s.get("member_count"), Some(Json::Number(n)) if n == "2"));
    let members: &Vec<Json> = match s.get("members") {
        Some(Json::Array(m)) => m,
        _ => panic!("no members"),
    };
    assert_eq!(members.len(), 2);
    assert_eq!(members[0].get_str("name"), Some("alpha".to_string()));
    assert!(matches!(members[0].get("dependency_count"), Some(Json::Number(n)) if n == "2"));
    match members[0].get("dependencies") {
        Some(Json::Array(d)) => {
            assert_eq!(d.len(), 2);
            assert!(matches!(&d[0], Json::Str(x) if x == "serde"));
            assert!(matches!(&d[1], Json::Str(x) if x == "regex"));
        }
        _ => panic!("no dependencies"),
    }
    match members[0].get("features") {
        Some(Json::Array(f)) => assert_eq!(f.len(), 2),
        _ => panic!("no features"),
    }
    assert!(matches!(members[1].get("manifest_path"), Some(Json::Null)));
    assert!(matches!(members[1].get("dependency_count"), Some(Json::Number(n)) if n == "0"));
    match s.get("workspace_member_ids") {
        Some(Json::Array(ids)) => assert_eq!(ids.len(), 2),
        _ => panic!("no ids"),
    }
    let empty = summarize_metadata(&jo(vec![]));
    assert_eq!(empty.get_str("workspace_root"), Some("".to_string()));
    assert!(matches!(empty.get("member_count"), Some(Json::Number(n)) if n == "0"));
}

#[test]
fn workspace_info_finds_package() {
    let doc = metadata_doc();
    let p = find_package(&doc, "beta").unwrap();
    assert_eq!(p.get_str("version"), Some("0.2.0".to_string()));
    assert!(find_package(&doc, "gamma").is_none());
    assert_eq!(crate_not_found("gamma"), "Crate not found: gamma");
}

#[test]
fn health_tool_description() {
    assert_eq!(Health::name(), "health");
    assert_eq!(Health::description(), "Get server health status and metrics");
}

#[test]
fn markdown_answer_sets_only_the_asked_field() {
    let doc = "# Title\n\nIntro\n\n## Setup\n\n| a | b |\n|---|---|\n| 1 | 2 |\n\n## Usage\n\nrun setup\n";
    let o = answer(doc, "list_headings", None);
    let hs = o.headings.unwrap();
    assert_eq!(hs.len(), 3);
    assert_eq!((hs[0].level, hs[0].text.as_str(), hs[0].line), (1, "Title", 1));
    assert_eq!((hs[1].level, hs[1].text.as_str(), hs[1].line), (2, "Setup", 5));
    assert_eq!((hs[2].level, hs[2].text.as_str(), hs[2].line), (2, "Usage", 11));
    let o = answer(doc, "get_section", Some("setup"));
    assert!(o.success && o.section.is_some());
    assert!(o.headings.is_none() && o.tables.is_none() && o.matches.is_none() && o.error.is_none());
    let o = answer(doc, "list_tables", None);
    assert!(o.success && o.tables.is_some());
    assert!(o.headings.is_none() && o.section.is_none() && o.matches.is_none());
    let o = answer(doc, "search_content", Some("SETUP"));
    let ms = o.matches.unwrap();
    assert_eq!(ms.len(), 2);
    assert_eq!((ms[0].line, ms[0].text.as_str()), (5, "## Setup"));
    assert_eq!((ms[1].line, ms[1].text.as_str()), (13, "run setup"));
    assert!(o.headings.is_none() && o.section.is_none() && o.tables.is_none());
}

fn reported(o: &ProjectOutput) -> u32 {
    o.matches.iter().map(|f| f.matches.len() as u32).sum()
}

#[test]
fn project_search_tally_holds() {
    for max in [None, Some(1), Some(2), Some(3), Some(10)] {
        let o = search_project("Hello", None, None, max, true);
        let limit = max.unwrap_or(1000);
        assert!(o.total_matches <= limit);
        assert!(o.matches.iter().all(|f| !f.matches.is_empty()));
        if o.truncated {
            assert_eq!(o.total_matches, limit);
            assert!(reported(&o) <= o.total_matches);
        } else {
            assert_eq!(reported(&o), o.total_matches);
        }
    }
}

#[test]
fn sqlite_row_limit_over_a_fetch() {
    for (n, max) in [(0usize, 3usize), (2, 3), (3, 3), (4, 3), (10, 0)] {
        let mut kept = 0usize;
        let mut cut = false;
        for _ in 0..n {
            if !keep_row(kept, max) {
                cut = true;
                break;
            }
            kept += 1;
        }
        assert_eq!(kept, n.min(max));
        assert_eq!(cut, n > max);
    }
}
