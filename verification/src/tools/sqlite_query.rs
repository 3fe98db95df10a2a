//! The read-only guard on SQL queries and the row limit of a result.
use vstd::prelude::*;
use crate::json::Json;
use crate::text::{chars_of, starts_with, starts_with_str, string_from, trim, trim_of, upper, uppercase_chars};

verus! {

/// Rows returned when no limit is given.
pub const DEFAULT_MAX_ROWS: usize = 500;

/// What a query returned.
#[derive(Debug)]
pub struct Output {
    pub success: bool,
    pub columns: Option<Vec<String>>,
    pub rows: Option<Vec<Vec<Json>>>,
    pub row_count: Option<usize>,
    pub truncated: bool,
    pub error: Option<String>,
}

/// The query, trimmed and uppercased, starts with `SELECT`, `PRAGMA`,
/// `EXPLAIN` or `WITH`.
pub open spec fn read_only_query(query: Seq<char>) -> bool {
    let t = upper(trim(query));
    starts_with(t, "SELECT"@) || starts_with(t, "PRAGMA"@) || starts_with(t, "EXPLAIN"@)
        || starts_with(t, "WITH"@)
}

/// `None` for a query that may run; otherwise the refusal.
pub fn check_query(query: &str) -> (r: Option<Output>)
    ensures
        read_only_query(query@) ==> r is None,
        !read_only_query(query@) ==> (r matches Some(o) && !o.success && o.columns is None && o.rows is None
            && o.row_count is None && !o.truncated && (o.error matches Some(e) && e@
            == "Only SELECT, PRAGMA, EXPLAIN, and WITH queries are allowed"@)),
{
    let t = uppercase_chars(trim_of(chars_of(query).as_slice()).as_slice());
    if starts_with_str(t.as_slice(), "SELECT") || starts_with_str(t.as_slice(), "PRAGMA")
        || starts_with_str(t.as_slice(), "EXPLAIN") || starts_with_str(t.as_slice(), "WITH") {
        None
    } else {
        Some(
            Output {
                success: false,
                columns: None,
                rows: None,
                row_count: None,
                truncated: false,
                error: Some(string_from("Only SELECT, PRAGMA, EXPLAIN, and WITH queries are allowed")),
            },
        )
    }
}

/// The row limit: the one given, else 500.
pub fn max_rows_of(max_rows: Option<usize>) -> (n: usize)
    ensures
        n == match max_rows {
            Some(m) => m,
            None => 500,
        },
{
    match max_rows {
        Some(m) => m,
        None => DEFAULT_MAX_ROWS,
    }
}

/// Whether a fetched row is kept: only while fewer than `max_rows` are
/// kept; the first row refused marks the result truncated and ends it.
pub fn keep_row(kept: usize, max_rows: usize) -> (b: bool)
    ensures
        b == (kept < max_rows),
{
    kept < max_rows
}

/// The rows kept and whether the result is cut after `n` fetched rows are
/// offered one by one under the limit `max`: each is kept while fewer than
/// `max` are (as `keep_row` decides); the first refused marks the result
/// cut and the fetching stops.
pub open spec fn rows_after(n: nat, max: nat) -> (nat, bool)
    decreases n,
{
    if n == 0 {
        (0, false)
    } else {
        let p = rows_after((n - 1) as nat, max);
        if p.1 {
            p
        } else if p.0 < max {
            ((p.0 + 1) as nat, false)
        } else {
            (p.0, true)
        }
    }
}

/// Over `n` fetched rows, the kept count is the smaller of `n` and `max`,
/// and the result is cut exactly when `n` exceeds `max`.
pub proof fn law_row_limit(n: nat, max: nat)
    ensures
        rows_after(n, max).0 == if n < max {
            n
        } else {
            max
        },
        rows_after(n, max).1 == (n > max),
    decreases n,
{
    if n > 0 {
        law_row_limit((n - 1) as nat, max);
    }
}

/// The successful result of `rows` under `columns`.
pub fn result_of(columns: Vec<String>, rows: Vec<Vec<Json>>, truncated: bool) -> (o: Output)
    ensures
        o.success && o.error is None && o.truncated == truncated,
        o.columns == Some(columns),
        o.rows == Some(rows),
        o.row_count == Some(rows@.len() as usize),
{
    let n = rows.len();
    Output { success: true, columns: Some(columns), rows: Some(rows), row_count: Some(n), truncated, error: None }
}

/// The `sqlite_query` tool.
pub struct SqliteQuery;

impl SqliteQuery {
    /// The tool's name.
    pub fn name() -> (r: &'static str)
        ensures
            r@ == "sqlite_query"@,
    {
        "sqlite_query"
    }

    /// The tool's description.
    pub fn description() -> (r: &'static str)
        ensures
            r@ == "Execute read-only SQL queries against a SQLite database"@,
    {
        "Execute read-only SQL queries against a SQLite database"
    }
}

/// The read-only guard lets a query run exactly when its trimmed,
/// uppercased text begins with one of the read-only statement keywords
/// `SELECT`, `PRAGMA`, `EXPLAIN` or `WITH` (a common table expression);
/// every other query is refused.
pub proof fn law_read_only_keywords(query: Seq<char>)
    ensures
        starts_with(upper(trim(query)), "SELECT"@) ==> read_only_query(query),
        starts_with(upper(trim(query)), "PRAGMA"@) ==> read_only_query(query),
        starts_with(upper(trim(query)), "EXPLAIN"@) ==> read_only_query(query),
        starts_with(upper(trim(query)), "WITH"@) ==> read_only_query(query),
        read_only_query(query) ==> (starts_with(upper(trim(query)), "SELECT"@) || starts_with(
            upper(trim(query)),
            "PRAGMA"@,
        ) || starts_with(upper(trim(query)), "EXPLAIN"@) || starts_with(upper(trim(query)), "WITH"@)),
{
}

} // verus!
