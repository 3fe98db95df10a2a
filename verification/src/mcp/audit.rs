//! Audit settings and which tool-call outcomes get written to the audit log.
use vstd::prelude::*;
use crate::json::Json;
use crate::mcp::error::McpError;
use crate::text::{chars_of, concat2, eq_str, string_from, strs};

verus! {

/// Configuration for audit logging.
#[derive(Debug)]
pub struct AuditConfig {
    /// Whether audit logging is enabled.
    pub enabled: bool,
    /// Path to the audit log file.
    pub log_path: String,
    /// Whether to include successful operations in the audit log.
    pub log_successes: bool,
    /// Whether to include policy denials in the audit log.
    pub log_policy_denials: bool,
    /// Whether to include errors in the audit log.
    pub log_errors: bool,
    /// Maximum size of a single audit log file in bytes before rotation.
    pub max_file_size: u64,
    /// Whether to pretty-print JSON in audit logs.
    pub pretty_print: bool,
}

impl Default for AuditConfig {
    fn default() -> (c: AuditConfig)
        ensures
            c.enabled,
            c.log_path@ == "mcp-audit.jsonl"@,
            c.log_successes,
            c.log_policy_denials,
            c.log_errors,
            c.max_file_size == 100 * 1024 * 1024,
            !c.pretty_print,
    {
        AuditConfig {
            enabled: true,
            log_path: string_from("mcp-audit.jsonl"),
            log_successes: true,
            log_policy_denials: true,
            log_errors: true,
            max_file_size: 100 * 1024 * 1024,
            pretty_print: false,
        }
    }
}

/// The outcome of a tool call as the audit log records it.
#[derive(Debug)]
pub enum AuditResult {
    /// The tool ran; its output.
    Success { output: Json },
    /// The policy refused the call.
    PolicyDenied { reason: String },
    /// The call failed.
    Error { message: String, code: Option<i32> },
}

/// Additional metadata of an audit entry.
#[derive(Debug)]
pub struct AuditMetadata {
    pub server_version: String,
    pub policy_version: Option<String>,
    pub policy_checks: Vec<String>,
    pub source: Option<String>,
}

/// A complete audit entry for a tool call.
#[derive(Debug)]
pub struct AuditEntry {
    pub timestamp: String,
    pub request_id: String,
    pub jsonrpc_id: Json,
    pub tool_name: String,
    pub arguments: Json,
    pub result: AuditResult,
    pub duration_ms: u64,
    pub metadata: AuditMetadata,
}

/// A tool call to be recorded.
#[derive(Debug)]
pub struct AuditEvent {
    pub request_id: String,
    pub jsonrpc_id: Json,
    pub tool_name: String,
    pub arguments: Json,
    pub result: AuditResult,
    pub duration_ms: u64,
    pub policy_checks: Vec<String>,
}

impl AuditConfig {
    /// Whether a call with outcome `result` is written to the log.
    pub open spec fn logs(self, result: AuditResult) -> bool {
        self.enabled && match result {
            AuditResult::Success { .. } => self.log_successes,
            AuditResult::PolicyDenied { .. } => self.log_policy_denials,
            AuditResult::Error { .. } => self.log_errors,
        }
    }

    /// Whether a call with outcome `result` is written to the log.
    pub fn should_log(&self, result: &AuditResult) -> (b: bool)
        ensures
            b == self.logs(*result),
    {
        self.enabled && match result {
            AuditResult::Success { .. } => self.log_successes,
            AuditResult::PolicyDenied { .. } => self.log_policy_denials,
            AuditResult::Error { .. } => self.log_errors,
        }
    }
}

/// The entry recorded for `event` at `timestamp`.
pub fn entry_for(event: AuditEvent, timestamp: String) -> (e: AuditEntry)
    ensures
        e.timestamp == timestamp,
        e.request_id == event.request_id,
        e.jsonrpc_id == event.jsonrpc_id,
        e.tool_name == event.tool_name,
        e.arguments == event.arguments,
        e.result == event.result,
        e.duration_ms == event.duration_ms,
        e.metadata.server_version@ == "0.1.0"@,
        e.metadata.policy_version is None,
        e.metadata.policy_checks == event.policy_checks,
        e.metadata.source is None,
{
    AuditEntry {
        timestamp,
        request_id: event.request_id,
        jsonrpc_id: event.jsonrpc_id,
        tool_name: event.tool_name,
        arguments: event.arguments,
        result: event.result,
        duration_ms: event.duration_ms,
        metadata: AuditMetadata {
            server_version: string_from("0.1.0"),
            policy_version: None,
            policy_checks: event.policy_checks,
            source: None,
        },
    }
}

/// The name of an outcome's kind, as filters take it.
pub open spec fn result_kind(r: AuditResult) -> Seq<char> {
    match r {
        AuditResult::Success { .. } => "success"@,
        AuditResult::PolicyDenied { .. } => "policy_denied"@,
        AuditResult::Error { .. } => "error"@,
    }
}

/// Counts over audit entries.
#[derive(Debug)]
pub struct AuditSummary {
    pub total_entries: usize,
    pub successful_calls: usize,
    pub policy_denials: usize,
    pub errors: usize,
    pub unique_tools_used: usize,
    pub total_duration_ms: u64,
}

/// Entries read back from an audit log.
#[derive(Debug)]
pub struct SessionReplay {
    pub entries: Vec<AuditEntry>,
}

/// Number of entries whose outcome has kind `kind`.
pub open spec fn kind_count(es: Seq<AuditEntry>, kind: Seq<char>) -> nat
    decreases es.len(),
{
    if es.len() == 0 {
        0
    } else {
        kind_count(es.drop_last(), kind) + if result_kind(es.last().result) == kind {
            1nat
        } else {
            0nat
        }
    }
}

/// Sum of the entries' durations.
pub open spec fn duration_sum(es: Seq<AuditEntry>) -> nat
    decreases es.len(),
{
    if es.len() == 0 {
        0
    } else {
        duration_sum(es.drop_last()) + es.last().duration_ms as nat
    }
}

/// The tool names used by the entries.
pub open spec fn tool_names(es: Seq<AuditEntry>) -> Set<Seq<char>> {
    es.map_values(|e: AuditEntry| e.tool_name@).to_set()
}

/// What `chrono::DateTime::parse_from_rfc3339` gives for `s`: the instant
/// as whole seconds since the Unix epoch and the nanoseconds past them, or
/// the text of its error.
pub uninterp spec fn rfc3339(s: Seq<char>) -> Result<(i64, u32), Seq<char>>;

/// `chrono::DateTime::parse_from_rfc3339`, read as the instant it denotes
/// (`timestamp` and `timestamp_subsec_nanos`) or the error's text; named
/// `rfc3339`.
#[verifier::external_body]
fn parse_rfc3339(s: &str) -> (r: Result<(i64, u32), String>)
    ensures
        match r {
            Ok(t) => rfc3339(s@) == Ok::<(i64, u32), Seq<char>>(t),
            Err(e) => rfc3339(s@) == Err::<(i64, u32), Seq<char>>(e@),
        },
{
    match chrono::DateTime::parse_from_rfc3339(s) {
        Ok(t) => Ok((t.timestamp(), t.timestamp_subsec_nanos())),
        Err(e) => Err(e.to_string()),
    }
}

/// What `chrono::DateTime::from_timestamp(secs, nanos)` formats as with
/// `to_rfc3339`, or `None` when the instant is out of range.
pub uninterp spec fn rfc3339_text(secs: i64, nanos: u32) -> Option<Seq<char>>;

/// The RFC 3339 text of an instant given as seconds and nanoseconds since
/// the Unix epoch (`DateTime::from_timestamp` and `to_rfc3339`); named
/// `rfc3339_text`.
#[verifier::external_body]
fn timestamp_text(secs: i64, nanos: u32) -> (r: Option<String>)
    ensures
        match r {
            Some(t) => rfc3339_text(secs, nanos) == Some(t@),
            None => rfc3339_text(secs, nanos) is None,
        },
{
    chrono::DateTime::from_timestamp(secs, nanos).map(|t| t.to_rfc3339())
}

/// The entry recorded for `event` at the instant `secs`/`nanos` since the
/// Unix epoch, stamped with its RFC 3339 text; the event back when the
/// instant cannot be written.
pub fn entry_at(event: AuditEvent, secs: i64, nanos: u32) -> (r: Result<AuditEntry, AuditEvent>)
    ensures
        match r {
            Ok(e) => rfc3339_text(secs, nanos) == Some(e.timestamp@) && e.request_id == event.request_id
                && e.jsonrpc_id == event.jsonrpc_id && e.tool_name == event.tool_name && e.arguments
                == event.arguments && e.result == event.result && e.duration_ms == event.duration_ms
                && e.metadata.server_version@ == "0.1.0"@ && e.metadata.policy_version is None
                && e.metadata.policy_checks == event.policy_checks && e.metadata.source is None,
            Err(ev) => rfc3339_text(secs, nanos) is None && ev == event,
        },
{
    match timestamp_text(secs, nanos) {
        Some(t) => Ok(entry_for(event, t)),
        None => Err(event),
    }
}

/// Instant `a` is not later than instant `b`.
pub open spec fn not_after(a: (i64, u32), b: (i64, u32)) -> bool {
    a.0 < b.0 || (a.0 == b.0 && a.1 <= b.1)
}

/// The entry's timestamp parses to an instant within `[start, end]`.
pub open spec fn within(e: AuditEntry, start: (i64, u32), end: (i64, u32)) -> bool {
    match rfc3339(e.timestamp@) {
        Ok(t) => not_after(start, t) && not_after(t, end),
        Err(_) => false,
    }
}

impl SessionReplay {
    /// Entries for the tool `tool_name`, in order.
    pub fn filter_by_tool(&self, tool_name: &str) -> (r: Vec<&AuditEntry>)
        ensures
            r@.map_values(|x: &AuditEntry| *x) == self.entries@.filter(|e: AuditEntry| e.tool_name@ == tool_name@),
    {
        let mut out: Vec<&AuditEntry> = Vec::new();
        let mut i: usize = 0;
        while i < self.entries.len()
            invariant
                i <= self.entries@.len(),
                out@.map_values(|x: &AuditEntry| *x) == self.entries@.take(i as int).filter(|e: AuditEntry| e.tool_name@ == tool_name@),
            decreases self.entries@.len() - i,
        {
            proof {
                reveal(Seq::filter);
                assert(self.entries@.take(i + 1).drop_last() =~= self.entries@.take(i as int));
            }
            if eq_str(self.entries[i].tool_name.as_str(), tool_name) {
                let ghost before = out@;
                out.push(&self.entries[i]);
                proof {
                    assert(out@.map_values(|x: &AuditEntry| *x) =~= before.map_values(|x: &AuditEntry| *x).push(self.entries@[i as int]));
                }
            }
            i = i + 1;
        }
        proof {
            assert(self.entries@.take(i as int) =~= self.entries@);
        }
        out
    }

    /// Entries whose timestamp lies between `start` and `end` (RFC 3339,
    /// both included), in order; an entry whose timestamp does not parse
    /// is left out, and a bound that does not parse is an error.
    pub fn filter_by_time_range(&self, start: &str, end: &str) -> (r: Result<Vec<&AuditEntry>, McpError>)
        ensures
            match (rfc3339(start@), rfc3339(end@)) {
                (Err(m), _) => r matches Err(McpError::AuditError { details }) && details@ == "Invalid start time format: "@ + m,
                (Ok(_), Err(m)) => r matches Err(McpError::AuditError { details }) && details@ == "Invalid end time format: "@ + m,
                (Ok(a), Ok(b)) => r matches Ok(v) && v@.map_values(|x: &AuditEntry| *x) == self.entries@.filter(
                    |e: AuditEntry| within(e, a, b),
                ),
            },
    {
        let a = match parse_rfc3339(start) {
            Ok(t) => t,
            Err(m) => {
                return Err(McpError::AuditError { details: concat2("Invalid start time format: ", chars_of(m.as_str()).as_slice()) });
            },
        };
        let b = match parse_rfc3339(end) {
            Ok(t) => t,
            Err(m) => {
                return Err(McpError::AuditError { details: concat2("Invalid end time format: ", chars_of(m.as_str()).as_slice()) });
            },
        };
        let mut out: Vec<&AuditEntry> = Vec::new();
        let mut i: usize = 0;
        while i < self.entries.len()
            invariant
                i <= self.entries@.len(),
                rfc3339(start@) == Ok::<(i64, u32), Seq<char>>(a),
                rfc3339(end@) == Ok::<(i64, u32), Seq<char>>(b),
                out@.map_values(|x: &AuditEntry| *x) == self.entries@.take(i as int).filter(|e: AuditEntry| within(e, a, b)),
            decreases self.entries@.len() - i,
        {
            proof {
                reveal(Seq::filter);
                assert(self.entries@.take(i + 1).drop_last() =~= self.entries@.take(i as int));
            }
            let keep = match parse_rfc3339(self.entries[i].timestamp.as_str()) {
                Ok(t) => (a.0 < t.0 || (a.0 == t.0 && a.1 <= t.1)) && (t.0 < b.0 || (t.0 == b.0 && t.1 <= b.1)),
                Err(_) => false,
            };
            if keep {
                let ghost before = out@;
                out.push(&self.entries[i]);
                proof {
                    assert(out@.map_values(|x: &AuditEntry| *x) =~= before.map_values(|x: &AuditEntry| *x).push(self.entries@[i as int]));
                }
            }
            i = i + 1;
        }
        proof {
            assert(self.entries@.take(i as int) =~= self.entries@);
        }
        Ok(out)
    }

    /// Entries whose outcome is of kind `result_type` (`success`,
    /// `policy_denied` or `error`), in order.
    pub fn filter_by_result_type(&self, result_type: &str) -> (r: Vec<&AuditEntry>)
        ensures
            r@.map_values(|x: &AuditEntry| *x) == self.entries@.filter(|e: AuditEntry| result_kind(e.result) == result_type@),
    {
        let mut out: Vec<&AuditEntry> = Vec::new();
        let mut i: usize = 0;
        while i < self.entries.len()
            invariant
                i <= self.entries@.len(),
                out@.map_values(|x: &AuditEntry| *x) == self.entries@.take(i as int).filter(|e: AuditEntry| result_kind(e.result) == result_type@),
            decreases self.entries@.len() - i,
        {
            proof {
                reveal(Seq::filter);
                assert(self.entries@.take(i + 1).drop_last() =~= self.entries@.take(i as int));
            }
            let kind = match &self.entries[i].result {
                AuditResult::Success { .. } => "success",
                AuditResult::PolicyDenied { .. } => "policy_denied",
                AuditResult::Error { .. } => "error",
            };
            if eq_str(kind, result_type) {
                let ghost before = out@;
                out.push(&self.entries[i]);
                proof {
                    assert(out@.map_values(|x: &AuditEntry| *x) =~= before.map_values(|x: &AuditEntry| *x).push(self.entries@[i as int]));
                }
            }
            i = i + 1;
        }
        proof {
            assert(self.entries@.take(i as int) =~= self.entries@);
        }
        out
    }

    /// Counts of all entries, by outcome, of distinct tools, and the total
    /// duration.
    pub fn generate_summary(&self) -> (r: AuditSummary)
        requires
            duration_sum(self.entries@) <= u64::MAX,
        ensures
            r.total_entries == self.entries@.len(),
            r.successful_calls == kind_count(self.entries@, "success"@),
            r.policy_denials == kind_count(self.entries@, "policy_denied"@),
            r.errors == kind_count(self.entries@, "error"@),
            r.unique_tools_used == tool_names(self.entries@).len(),
            r.total_duration_ms == duration_sum(self.entries@),
    {
        let ghost es = self.entries@;
        let mut ok: usize = 0;
        let mut denied: usize = 0;
        let mut errors: usize = 0;
        let mut total: u64 = 0;
        let mut seen: Vec<String> = Vec::new();
        let mut i: usize = 0;
        while i < self.entries.len()
            invariant
                i <= es.len(),
                es == self.entries@,
                duration_sum(es) <= u64::MAX,
                ok == kind_count(es.take(i as int), "success"@),
                denied == kind_count(es.take(i as int), "policy_denied"@),
                errors == kind_count(es.take(i as int), "error"@),
                ok + denied + errors == i,
                total == duration_sum(es.take(i as int)),
                strs(seen@).no_duplicates(),
                strs(seen@).to_set() == tool_names(es.take(i as int)),
            decreases es.len() - i,
        {
            proof {
                reveal_strlit("success");
                reveal_strlit("policy_denied");
                reveal_strlit("error");
                assert(es.take(i + 1).drop_last() =~= es.take(i as int));
                assert(es.take(i + 1).last() == es[i as int]);
                lemma_duration_prefix(es, i + 1);
            }
            let e = &self.entries[i];
            match &e.result {
                AuditResult::Success { .. } => {
                    ok = ok + 1;
                },
                AuditResult::PolicyDenied { .. } => {
                    denied = denied + 1;
                },
                AuditResult::Error { .. } => {
                    errors = errors + 1;
                },
            }
            proof {
                let t0 = es.take(i as int);
                let t1 = es.take(i + 1);
                assert(kind_count(t1, "success"@) == kind_count(t0, "success"@) + if result_kind(es[i as int].result) == "success"@ { 1nat } else { 0nat });
                assert(kind_count(t1, "policy_denied"@) == kind_count(t0, "policy_denied"@) + if result_kind(es[i as int].result) == "policy_denied"@ { 1nat } else { 0nat });
                assert(kind_count(t1, "error"@) == kind_count(t0, "error"@) + if result_kind(es[i as int].result) == "error"@ { 1nat } else { 0nat });
                assert("success"@ != "policy_denied"@ && "success"@ != "error"@ && "error"@ != "policy_denied"@) by {
                    assert("success"@.len() != "policy_denied"@.len());
                    assert("success"@[0] != "error"@[0]);
                    assert("error"@.len() != "policy_denied"@.len());
                }
            }
            total = total + e.duration_ms;
            let ghost names_before = strs(seen@);
            let known = crate::text::list_contains(&seen, e.tool_name.as_str());
            proof {
                assert(es.take(i + 1).map_values(|x: AuditEntry| x.tool_name@) =~= es.take(
                    i as int,
                ).map_values(|x: AuditEntry| x.tool_name@).push(e.tool_name@));
                es.take(i as int).map_values(|x: AuditEntry| x.tool_name@).lemma_push_to_set_commute(
                    e.tool_name@,
                );
            }
            if !known {
                seen.push(e.tool_name.clone());
                proof {
                    assert(strs(seen@) =~= names_before.push(e.tool_name@));
                    names_before.lemma_push_to_set_commute(e.tool_name@);
                    assert forall|a: int, b: int| 0 <= a < b < strs(seen@).len() implies strs(seen@)[a] != strs(seen@)[b] by {
                        if b == names_before.len() {
                            assert(names_before.contains(names_before[a]));
                        }
                    }
                }
            } else {
                proof {
                    assert(names_before.to_set().contains(e.tool_name@));
                    assert(names_before.to_set().insert(e.tool_name@) =~= names_before.to_set());
                }
            }
            i = i + 1;
        }
        proof {
            assert(es.take(i as int) =~= es);
            strs(seen@).unique_seq_to_set();
        }
        AuditSummary {
            total_entries: self.entries.len(),
            successful_calls: ok,
            policy_denials: denied,
            errors,
            unique_tools_used: seen.len(),
            total_duration_ms: total,
        }
    }
}

proof fn lemma_duration_prefix(es: Seq<AuditEntry>, k: int)
    requires
        0 <= k <= es.len(),
    ensures
        duration_sum(es.take(k)) <= duration_sum(es),
    decreases es.len() - k,
{
    if k < es.len() {
        lemma_duration_prefix(es, k + 1);
        assert(es.take(k + 1).drop_last() =~= es.take(k));
    } else {
        assert(es.take(k) =~= es);
    }
}

/// Law: every entry is counted under exactly one outcome.
pub proof fn law_summary_partition(es: Seq<AuditEntry>)
    ensures
        kind_count(es, "success"@) + kind_count(es, "policy_denied"@) + kind_count(es, "error"@)
            == es.len(),
    decreases es.len(),
{
    reveal_strlit("success");
    reveal_strlit("policy_denied");
    reveal_strlit("error");
    assert("success"@ != "policy_denied"@ && "success"@ != "error"@ && "error"@ != "policy_denied"@) by {
        assert("success"@.len() != "policy_denied"@.len());
        assert("success"@[0] != "error"@[0]);
        assert("error"@.len() != "policy_denied"@.len());
    }
    if es.len() > 0 {
        law_summary_partition(es.drop_last());
    }
}

} // verus!
