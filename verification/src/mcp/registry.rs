//! The tool registry: which tools are registered, which are listed, and how
//! a call goes through the policy, the lookup and the tool, with the
//! audit outcome of each way it can end.
use vstd::prelude::*;
use crate::json::Json;
use crate::mcp::audit::{AuditEvent, AuditResult};
use crate::mcp::error::McpError;
use crate::mcp::policy::{PathCheck, Policy};
use crate::text::{list_contains, string_from, strs};

verus! {

/// The registered tools, by name, and the policy they run under.
#[derive(Debug)]
pub struct ToolRegistry {
    pub policy: Policy,
    /// Registered names, each once, in order of registration.
    pub names: Vec<String>,
}

/// The audit outcome of a call the policy refused with `e`.
pub open spec fn denied_outcome(a: AuditResult, e: McpError) -> bool {
    a matches AuditResult::PolicyDenied { reason } && reason@ == e.text()
}

/// The audit outcome of a call that failed with `e`.
pub open spec fn failed_outcome(a: AuditResult, e: McpError) -> bool {
    a matches AuditResult::Error { message, code } && message@ == e.text() && code == Some(e.code())
}

impl ToolRegistry {
    /// The registered names.
    pub open spec fn tools(self) -> Seq<Seq<char>> {
        strs(self.names@)
    }

    /// No name is registered twice.
    pub open spec fn wf(self) -> bool {
        self.tools().no_duplicates()
    }

    /// An empty registry under the default policy.
    pub fn new() -> (r: ToolRegistry)
        ensures
            r.wf(),
            r.tools() == Seq::<Seq<char>>::empty(),
            r.policy.is_default(),
    {
        let r = ToolRegistry { policy: Policy::new(), names: Vec::new() };
        proof {
            assert(r.tools() =~= Seq::<Seq<char>>::empty());
        }
        r
    }

    /// An empty registry under `policy`.
    pub fn new_with_policy(policy: Policy) -> (r: ToolRegistry)
        ensures
            r.wf(),
            r.tools() == Seq::<Seq<char>>::empty(),
            r.policy == policy,
    {
        let r = ToolRegistry { policy, names: Vec::new() };
        proof {
            assert(r.tools() =~= Seq::<Seq<char>>::empty());
        }
        r
    }

    /// Replace the policy.
    pub fn set_policy(&mut self, policy: Policy)
        ensures
            final(self).policy == policy,
            final(self).tools() == old(self).tools(),
            final(self).wf() == old(self).wf(),
    {
        self.policy = policy;
    }

    /// Register a tool by name; registering a name again changes nothing.
    pub fn register(&mut self, name: &str)
        requires
            old(self).wf(),
        ensures
            final(self).wf(),
            final(self).policy == old(self).policy,
            old(self).tools().contains(name@) ==> final(self).tools() == old(self).tools(),
            !old(self).tools().contains(name@) ==> final(self).tools() == old(self).tools().push(name@),
    {
        if !list_contains(&self.names, name) {
            let ghost before = self.names@;
            self.names.push(string_from(name));
            proof {
                assert(strs(self.names@) =~= strs(before).push(name@));
            }
        }
    }

    /// How many tools are registered.
    pub fn len(&self) -> (n: usize)
        ensures
            n == self.tools().len(),
    {
        self.names.len()
    }

    /// Whether no tool is registered.
    pub fn is_empty(&self) -> (b: bool)
        ensures
            b == (self.tools().len() == 0),
    {
        self.names.len() == 0
    }

    /// Whether `name` is registered.
    pub fn has_tool(&self, name: &str) -> (b: bool)
        ensures
            b == self.tools().contains(name@),
    {
        list_contains(&self.names, name)
    }

    /// The registered tools that `tools/list` shows under the policy, in
    /// order of registration.
    pub fn listed(&self) -> (r: Vec<String>)
        ensures
            strs(r@) == self.tools().filter(|n: Seq<char>| self.policy.tool_listed(n)),
    {
        let ghost ts = self.tools();
        let mut r: Vec<String> = Vec::new();
        proof {
            reveal(Seq::filter);
            assert(strs(r@) =~= ts.take(0).filter(|n: Seq<char>| self.policy.tool_listed(n)));
        }
        let mut i: usize = 0;
        while i < self.names.len()
            invariant
                i <= self.names@.len(),
                ts == strs(self.names@),
                strs(r@) == ts.take(i as int).filter(|n: Seq<char>| self.policy.tool_listed(n)),
            decreases self.names@.len() - i,
        {
            proof {
                reveal(Seq::filter);
                assert(ts.take(i + 1).drop_last() =~= ts.take(i as int));
                assert(ts.take(i + 1).last() == self.names@[i as int]@);
            }
            if self.policy.can_list_tool(self.names[i].as_str()) {
                let ghost before = r@;
                r.push(self.names[i].clone());
                proof {
                    assert(strs(r@) =~= strs(before).push(self.names@[i as int]@));
                }
            }
            i = i + 1;
        }
        proof {
            assert(ts.take(i as int) =~= ts);
        }
        r
    }

    /// The first step of a call: the policy's decision on `name` with
    /// `args`. A refusal comes with its audit outcome; a permission with
    /// the paths still to validate.
    pub fn authorize(&self, name: &str, args: &Json) -> (r: Result<Vec<PathCheck>, (McpError, AuditResult)>)
        ensures
            match r {
                Ok(checks) => self.policy.check_result(name@, *args, Ok(checks)),
                Err((e, a)) => self.policy.check_result(name@, *args, Err(e)) && denied_outcome(a, e),
            },
    {
        match self.policy.check_request(name, args) {
            Ok(checks) => Ok(checks),
            Err(e) => {
                let a = denial(&e);
                Err((e, a))
            },
        }
    }

    /// The step after the paths passed: the tool must be registered.
    pub fn lookup(&self, name: &str) -> (r: Result<(), (McpError, AuditResult)>)
        ensures
            self.tools().contains(name@) ==> r is Ok,
            !self.tools().contains(name@) ==> (r matches Err((e, a)) && (e matches McpError::ToolNotFound {
                tool_name,
            } && tool_name@ == name@) && failed_outcome(a, e)),
    {
        if self.has_tool(name) {
            Ok(())
        } else {
            let e = McpError::tool_not_found(name);
            let a = failure(&e);
            Err((e, a))
        }
    }
}

/// The audit outcome of a refusal: the policy's reason.
pub fn denial(e: &McpError) -> (a: AuditResult)
    ensures
        denied_outcome(a, *e),
{
    AuditResult::PolicyDenied { reason: e.message() }
}

/// The audit outcome of a failure: its message and code.
pub fn failure(e: &McpError) -> (a: AuditResult)
    ensures
        failed_outcome(a, *e),
{
    AuditResult::Error { message: e.message(), code: Some(e.error_code()) }
}

/// The last step of a call: what the tool returned, and its audit outcome
/// (the output on success, the error otherwise).
pub fn finish(outcome: Result<Json, McpError>) -> (r: (Result<Json, McpError>, AuditResult))
    ensures
        match outcome {
            Ok(v) => r.0 == Ok::<Json, McpError>(v) && (r.1 matches AuditResult::Success { output } && output.deep_eq(v)),
            Err(e) => r.0 == Err::<Json, McpError>(e) && failed_outcome(r.1, e),
        },
{
    match outcome {
        Ok(v) => {
            let copy = v.duplicate();
            (Ok(v), AuditResult::Success { output: copy })
        },
        Err(e) => {
            let a = failure(&e);
            (Err(e), a)
        },
    }
}

/// How a tool call ended, before its one audit entry is written.
#[derive(Debug)]
pub enum CallOutcome {
    /// The policy refused the call: the tool gate or one of its path checks.
    Denied(McpError),
    /// No tool of that name is registered.
    NotFound(McpError),
    /// The tool ran, with this result.
    Ran(Result<Json, McpError>),
}

impl ToolRegistry {
    /// The first step of a call: the policy's verdict. `Ok` holds the path
    /// checks the call still owes; a refusal ends the call as `Denied`.
    pub fn begin_call(&self, name: &str, args: &Json) -> (r: Result<Vec<PathCheck>, CallOutcome>)
        ensures
            match r {
                Ok(checks) => self.policy.check_result(name@, *args, Ok(checks)),
                Err(o) => o matches CallOutcome::Denied(e) && self.policy.check_result(name@, *args, Err(e)),
            },
    {
        match self.policy.check_request(name, args) {
            Ok(checks) => Ok(checks),
            Err(e) => Err(CallOutcome::Denied(e)),
        }
    }

    /// The step after the path checks: a failed check ends the call as
    /// `Denied`; an unknown tool ends it as `NotFound`; `None` when the tool
    /// is to run.
    pub fn after_paths(&self, name: &str, paths: Result<(), McpError>) -> (r: Option<CallOutcome>)
        ensures
            match paths {
                Err(e) => r == Some(CallOutcome::Denied(e)),
                Ok(_) => if self.tools().contains(name@) {
                    r is None
                } else {
                    r matches Some(CallOutcome::NotFound(e)) && (e matches McpError::ToolNotFound {
                        tool_name,
                    } && tool_name@ == name@)
                },
            },
    {
        match paths {
            Err(e) => Some(CallOutcome::Denied(e)),
            Ok(_) => if self.has_tool(name) {
                None
            } else {
                Some(CallOutcome::NotFound(McpError::tool_not_found(name)))
            },
        }
    }
}

/// The one result and the one audit outcome of a finished call: a refusal
/// is recorded as denied, an unknown tool or a failed run as an error with
/// its code, a successful run with its output; the result is the call's
/// own, whatever becomes of the audit entry.
pub fn conclude(outcome: CallOutcome) -> (r: (Result<Json, McpError>, AuditResult))
    ensures
        match outcome {
            CallOutcome::Denied(e) => r.0 == Err::<Json, McpError>(e) && denied_outcome(r.1, e),
            CallOutcome::NotFound(e) => r.0 == Err::<Json, McpError>(e) && failed_outcome(r.1, e),
            CallOutcome::Ran(o) => match o {
                Ok(v) => r.0 == Ok::<Json, McpError>(v) && (r.1 matches AuditResult::Success { output }
                    && output.deep_eq(v)),
                Err(e) => r.0 == Err::<Json, McpError>(e) && failed_outcome(r.1, e),
            },
        },
{
    match outcome {
        CallOutcome::Denied(e) => {
            let a = denial(&e);
            (Err(e), a)
        },
        CallOutcome::NotFound(e) => {
            let a = failure(&e);
            (Err(e), a)
        },
        CallOutcome::Ran(o) => finish(o),
    }
}

/// The checks every call goes through, as the audit log names them.
pub open spec fn call_checks() -> Seq<Seq<char>> {
    seq!["policy_authorization"@]
}

/// The event recorded for a call of `tool_name` that ended with `result`.
pub fn call_event(
    request_id: String,
    jsonrpc_id: Json,
    tool_name: &str,
    arguments: Json,
    result: AuditResult,
    duration_ms: u64,
) -> (e: AuditEvent)
    ensures
        e.request_id == request_id,
        e.jsonrpc_id == jsonrpc_id,
        e.tool_name@ == tool_name@,
        e.arguments == arguments,
        e.result == result,
        e.duration_ms == duration_ms,
        strs(e.policy_checks@) == call_checks(),
{
    let mut checks: Vec<String> = Vec::new();
    checks.push(string_from("policy_authorization"));
    proof {
        assert(strs(checks@) =~= call_checks());
    }
    AuditEvent {
        request_id,
        jsonrpc_id,
        tool_name: string_from(tool_name),
        arguments,
        result,
        duration_ms,
        policy_checks: checks,
    }
}

/// Law: `tools/list` shows only registered tools the policy lets through,
/// and every such tool.
pub proof fn law_listed_are_registered_and_allowed(reg: ToolRegistry, name: Seq<char>)
    ensures
        reg.tools().filter(|n: Seq<char>| reg.policy.tool_listed(n)).contains(name) <==> (reg.tools().contains(
            name,
        ) && reg.policy.tool_listed(name)),
{
    let p = |n: Seq<char>| reg.policy.tool_listed(n);
    if reg.tools().contains(name) && reg.policy.tool_listed(name) {
        let i = choose|i: int| 0 <= i < reg.tools().len() && reg.tools()[i] == name;
        reg.tools().lemma_filter_contains(p, i);
    }
    if reg.tools().filter(p).contains(name) {
        reg.tools().lemma_filter_contains_rev(p, name);
        let f = reg.tools().filter(p);
        let j = choose|j: int| 0 <= j < f.len() && f[j] == name;
        reg.tools().lemma_filter_pred(p, j);
    }
}

} // verus!
