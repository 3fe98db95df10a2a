//! Checking and dispatching the portfolio server's JSON-RPC requests, and
//! the envelopes of its answers.
use vstd::prelude::*;
use crate::json::Json;
use crate::mcp::validation::{signed_dec, signed_decimal};
use crate::text::{chars_of, concat2, eq_str, string_from, string_of};

verus! {

/// Longest request line accepted, in bytes.
pub const MAX_REQUEST_SIZE: usize = 1_048_576;

/// Longest response sent, in bytes.
pub const MAX_RESPONSE_SIZE: usize = 10_485_760;

/// Longest serialized tool arguments accepted, in bytes.
pub const MAX_ARGUMENTS_SIZE: usize = 100_000;

/// JSON-RPC code of a request that could not be parsed.
pub const PARSE_ERROR: i32 = -32700;

/// JSON-RPC code of an invalid request.
pub const INVALID_REQUEST: i32 = -32600;

/// JSON-RPC code of an unknown method or tool.
pub const METHOD_NOT_FOUND: i32 = -32601;

/// JSON-RPC code of invalid parameters.
pub const INVALID_PARAMS: i32 = -32602;

/// JSON-RPC code of a failure while answering.
pub const INTERNAL_ERROR: i32 = -32603;

/// An ASCII letter or digit.
pub open spec fn ascii_alnum(c: char) -> bool {
    ('a' <= c && c <= 'z') || ('A' <= c && c <= 'Z') || ('0' <= c && c <= '9')
}

/// A character allowed in a method name.
pub open spec fn method_char(c: char) -> bool {
    ascii_alnum(c) || c == '_' || c == '.' || c == '/'
}

/// A character allowed in a tool name.
pub open spec fn tool_char(c: char) -> bool {
    ascii_alnum(c) || c == '_'
}

/// Every character of `m` is allowed in a method name.
pub open spec fn valid_method(m: Seq<char>) -> bool {
    forall|i: int| 0 <= i < m.len() ==> method_char(#[trigger] m[i])
}

/// Every character of `n` is allowed in a tool name.
pub open spec fn valid_tool_name(n: Seq<char>) -> bool {
    forall|i: int| 0 <= i < n.len() ==> tool_char(#[trigger] n[i])
}

/// What a request asks of the server.
#[derive(Debug)]
pub enum PortfolioCall {
    Initialize,
    ListTools,
    /// Run the named tool with the request's arguments, if it has any.
    CallTool { name: String, arguments: Option<Json> },
}

/// A checked request: its id, if it has one, and what it asks.
#[derive(Debug)]
pub struct PortfolioRequest {
    pub id: Option<Json>,
    pub call: PortfolioCall,
}

/// Two optional documents hold the same document, or neither holds one.
pub open spec fn same_doc(a: Option<Json>, b: Option<Json>) -> bool {
    match (a, b) {
        (Some(x), Some(y)) => x.deep_eq(y),
        (None, None) => true,
        _ => false,
    }
}

/// The error of a tool call's parameters, if any.
pub open spec fn params_error(v: Json) -> Option<Seq<char>> {
    match v.spec_get("params"@) {
        None => Some("-32602: Missing params"@),
        Some(p) => match p.str_field("name"@) {
            None => Some("-32602: Missing tool name"@),
            Some(n) => if !valid_tool_name(n) {
                Some("-32601: Invalid tool name: "@ + n)
            } else {
                None
            },
        },
    }
}

/// The error a request is refused with, if any: the version must be the
/// string `"2.0"`, the method a string of allowed characters naming a
/// known method, and a tool call needs `params` with a valid tool name.
pub open spec fn request_error(v: Json) -> Option<Seq<char>> {
    match v.str_field("jsonrpc"@) {
        None => Some("Missing jsonrpc version"@),
        Some(ver) => if ver != "2.0"@ {
            Some("-32600: Unsupported JSON-RPC version: "@ + ver)
        } else {
            match v.str_field("method"@) {
                None => Some("-32600: Missing method"@),
                Some(m) => if !valid_method(m) {
                    Some("-32601: Invalid method name: "@ + m)
                } else if m == "initialize"@ || m == "tools/list"@ {
                    None
                } else if m == "tools/call"@ {
                    params_error(v)
                } else {
                    Some("-32601: Unknown method: "@ + m)
                },
            }
        },
    }
}

/// `q` is what the accepted request `v` asks.
pub open spec fn call_of(v: Json, q: PortfolioRequest) -> bool {
    &&& same_doc(q.id, v.spec_get("id"@))
    &&& {
        let m = v.str_field("method"@).unwrap();
        if m == "initialize"@ {
            q.call is Initialize
        } else if m == "tools/list"@ {
            q.call is ListTools
        } else {
            let p = v.spec_get("params"@).unwrap();
            q.call matches PortfolioCall::CallTool { name, arguments } && Some(name@) == p.str_field(
                "name"@,
            ) && same_doc(arguments, p.spec_get("arguments"@))
        }
    }
}

fn all_method_chars(s: &[char]) -> (b: bool)
    ensures
        b == valid_method(s@),
{
    let mut i: usize = 0;
    while i < s.len()
        invariant
            i <= s@.len(),
            forall|k: int| 0 <= k < i ==> method_char(#[trigger] s@[k]),
        decreases s@.len() - i,
    {
        let c = s[i];
        let ok = ('a' <= c && c <= 'z') || ('A' <= c && c <= 'Z') || ('0' <= c && c <= '9') || c == '_'
            || c == '.' || c == '/';
        if !ok {
            return false;
        }
        i = i + 1;
    }
    true
}

fn all_tool_chars(s: &[char]) -> (b: bool)
    ensures
        b == valid_tool_name(s@),
{
    let mut i: usize = 0;
    while i < s.len()
        invariant
            i <= s@.len(),
            forall|k: int| 0 <= k < i ==> tool_char(#[trigger] s@[k]),
        decreases s@.len() - i,
    {
        let c = s[i];
        let ok = ('a' <= c && c <= 'z') || ('A' <= c && c <= 'Z') || ('0' <= c && c <= '9') || c == '_';
        if !ok {
            return false;
        }
        i = i + 1;
    }
    true
}

fn copy_doc(v: Option<&Json>) -> (r: Option<Json>)
    ensures
        same_doc(
            r,
            match v {
                Some(x) => Some(*x),
                None => None,
            },
        ),
{
    match v {
        Some(x) => Some(x.duplicate()),
        None => None,
    }
}

/// Check a parsed request and read what it asks. Every refusal is the
/// message of the error answered to the client.
pub fn parse_request(request: &Json) -> (r: Result<PortfolioRequest, String>)
    ensures
        match request_error(*request) {
            Some(e) => r matches Err(s) && s@ == e,
            None => r matches Ok(q) && call_of(*request, q),
        },
{
    let version = match request.get_str("jsonrpc") {
        Some(v) => v,
        None => {
            return Err(string_from("Missing jsonrpc version"));
        },
    };
    if !eq_str(version.as_str(), "2.0") {
        return Err(concat2("-32600: Unsupported JSON-RPC version: ", chars_of(version.as_str()).as_slice()));
    }
    let method = match request.get_str("method") {
        Some(m) => m,
        None => {
            return Err(string_from("-32600: Missing method"));
        },
    };
    let mc = chars_of(method.as_str());
    if !all_method_chars(mc.as_slice()) {
        return Err(concat2("-32601: Invalid method name: ", mc.as_slice()));
    }
    let id = copy_doc(request.get("id"));
    if eq_str(method.as_str(), "initialize") {
        return Ok(PortfolioRequest { id, call: PortfolioCall::Initialize });
    }
    if eq_str(method.as_str(), "tools/list") {
        return Ok(PortfolioRequest { id, call: PortfolioCall::ListTools });
    }
    if !eq_str(method.as_str(), "tools/call") {
        return Err(concat2("-32601: Unknown method: ", mc.as_slice()));
    }
    let params = match request.get("params") {
        Some(p) => p,
        None => {
            return Err(string_from("-32602: Missing params"));
        },
    };
    let name = match params.get_str("name") {
        Some(n) => n,
        None => {
            return Err(string_from("-32602: Missing tool name"));
        },
    };
    let nc = chars_of(name.as_str());
    if !all_tool_chars(nc.as_slice()) {
        return Err(concat2("-32601: Invalid tool name: ", nc.as_slice()));
    }
    let arguments = copy_doc(params.get("arguments"));
    Ok(PortfolioRequest { id, call: PortfolioCall::CallTool { name, arguments } })
}

/// The refusal of tool arguments whose serialized form takes `len` bytes:
/// more than 100,000 is too large.
pub fn check_arguments_size(len: usize) -> (r: Result<(), String>)
    ensures
        len <= MAX_ARGUMENTS_SIZE ==> r is Ok,
        len > MAX_ARGUMENTS_SIZE ==> (r matches Err(s) && s@ == "-32602: Arguments too large: "@ + crate::text::dec(
            len as nat,
        ) + " bytes"@),
{
    if len > MAX_ARGUMENTS_SIZE {
        let mut t = chars_of("-32602: Arguments too large: ");
        crate::text::extend(&mut t, crate::text::decimal(len as u64).as_slice());
        crate::text::extend_str(&mut t, " bytes");
        return Err(string_of(t.as_slice()));
    }
    Ok(())
}

/// A request line longer than the limit is refused unread.
pub fn request_too_large(len: usize) -> (b: bool)
    ensures
        b == (len > MAX_REQUEST_SIZE),
{
    len > MAX_REQUEST_SIZE
}

/// A response longer than the limit is replaced by an error.
pub fn response_too_large(len: usize) -> (b: bool)
    ensures
        b == (len > MAX_RESPONSE_SIZE),
{
    len > MAX_RESPONSE_SIZE
}

/// A tool of the portfolio server, with the arguments it needs.
#[derive(Debug)]
pub enum PortfolioTool {
    ContextBrief(Json),
    QueryRag(Json),
    ListCorpora,
    ProjectHealth,
    GetCorpusStats(Json),
    EvalReport,
    EvalFailures,
    CorpusGaps,
    ReindexStatus,
}

/// The tools that cannot run without arguments.
pub open spec fn needs_arguments(name: Seq<char>) -> bool {
    name == "context_brief"@ || name == "query_rag"@ || name == "get_corpus_stats"@
}

/// The tools that run without arguments.
pub open spec fn takes_no_arguments(name: Seq<char>) -> bool {
    name == "list_corpora"@ || name == "project_health"@ || name == "eval_report"@ || name
        == "eval_failures"@ || name == "corpus_gaps"@ || name == "reindex_status"@
}

/// `t` is the tool `name`, run with `arguments`.
pub open spec fn tool_is(t: PortfolioTool, name: Seq<char>, arguments: Option<Json>) -> bool {
    match t {
        PortfolioTool::ContextBrief(a) => name == "context_brief"@ && same_doc(Some(a), arguments),
        PortfolioTool::QueryRag(a) => name == "query_rag"@ && same_doc(Some(a), arguments),
        PortfolioTool::GetCorpusStats(a) => name == "get_corpus_stats"@ && same_doc(Some(a), arguments),
        PortfolioTool::ListCorpora => name == "list_corpora"@,
        PortfolioTool::ProjectHealth => name == "project_health"@,
        PortfolioTool::EvalReport => name == "eval_report"@,
        PortfolioTool::EvalFailures => name == "eval_failures"@,
        PortfolioTool::CorpusGaps => name == "corpus_gaps"@,
        PortfolioTool::ReindexStatus => name == "reindex_status"@,
    }
}

/// The tool a call names: an unknown name is refused, and so is a call
/// without arguments of a tool that needs them.
pub fn select_tool(name: &str, arguments: Option<Json>) -> (r: Result<PortfolioTool, String>)
    ensures
        needs_arguments(name@) && arguments is None ==> (r matches Err(s) && s@
            == "-32602: Missing arguments"@),
        needs_arguments(name@) && arguments is Some ==> (r matches Ok(t) && tool_is(t, name@, arguments)),
        !needs_arguments(name@) && takes_no_arguments(name@) ==> (r matches Ok(t) && tool_is(
            t,
            name@,
            arguments,
        )),
        !needs_arguments(name@) && !takes_no_arguments(name@) ==> (r matches Err(s) && s@
            == "-32601: Unknown tool: "@ + name@),
{
    let ghost given = arguments;
    let with_args = eq_str(name, "context_brief") || eq_str(name, "query_rag") || eq_str(name, "get_corpus_stats");
    if with_args {
        let a = match arguments {
            Some(a) => a,
            None => {
                return Err(string_from("-32602: Missing arguments"));
            },
        };
        let d = a.duplicate();
        proof {
            assert(given == Some(a));
        }
        if eq_str(name, "context_brief") {
            return Ok(PortfolioTool::ContextBrief(d));
        } else if eq_str(name, "query_rag") {
            return Ok(PortfolioTool::QueryRag(d));
        } else {
            return Ok(PortfolioTool::GetCorpusStats(d));
        }
    }
    if eq_str(name, "list_corpora") {
        Ok(PortfolioTool::ListCorpora)
    } else if eq_str(name, "project_health") {
        Ok(PortfolioTool::ProjectHealth)
    } else if eq_str(name, "eval_report") {
        Ok(PortfolioTool::EvalReport)
    } else if eq_str(name, "eval_failures") {
        Ok(PortfolioTool::EvalFailures)
    } else if eq_str(name, "corpus_gaps") {
        Ok(PortfolioTool::CorpusGaps)
    } else if eq_str(name, "reindex_status") {
        Ok(PortfolioTool::ReindexStatus)
    } else {
        Err(concat2("-32601: Unknown tool: ", chars_of(name).as_slice()))
    }
}

/// The document of a string.
pub open spec fn is_str(v: Json, s: Seq<char>) -> bool {
    v matches Json::Str(x) && x@ == s
}

/// `v` is `{"jsonrpc": "2.0", key: payload, "id": id}`, a missing id
/// written as `null`.
pub open spec fn envelope_is(v: Json, key: Seq<char>, payload: Json, id: Option<Json>) -> bool {
    v matches Json::Object(es) && es@.len() == 3 && es@[0].0@ == "jsonrpc"@ && is_str(es@[0].1, "2.0"@)
        && es@[1].0@ == key && es@[1].1 == payload && es@[2].0@ == "id"@ && match id {
        Some(i) => es@[2].1 == i,
        None => es@[2].1 is Null,
    }
}

fn envelope(key: &str, payload: Json, id: Option<Json>) -> (r: Json)
    ensures
        envelope_is(r, key@, payload, id),
{
    let idv = match id {
        Some(i) => i,
        None => Json::Null,
    };
    let mut es: Vec<(String, Json)> = Vec::new();
    es.push((string_from("jsonrpc"), Json::Str(string_from("2.0"))));
    es.push((string_from(key), payload));
    es.push((string_from("id"), idv));
    Json::Object(es)
}

/// The answer carrying `result` for request `id`.
pub fn rpc_result(id: Option<Json>, result: Json) -> (r: Json)
    ensures
        envelope_is(r, "result"@, result, id),
{
    envelope("result", result, id)
}

/// `e` is `{"code": code, "message": message}`.
pub open spec fn error_body_is(e: Json, code: int, message: Seq<char>) -> bool {
    e matches Json::Object(es) && es@.len() == 2 && es@[0].0@ == "code"@ && (es@[0].1 matches Json::Number(
        c,
    ) && c@ == signed_dec(code)) && es@[1].0@ == "message"@ && is_str(es@[1].1, message)
}

/// The error answer to request `id`.
pub fn rpc_error(id: Option<Json>, code: i32, message: &str) -> (r: Json)
    ensures
        r matches Json::Object(es) && es@.len() == 3 && es@[0].0@ == "jsonrpc"@ && is_str(es@[0].1, "2.0"@)
            && es@[1].0@ == "error"@ && error_body_is(es@[1].1, code as int, message@) && es@[2].0@
            == "id"@ && match id {
            Some(i) => es@[2].1 == i,
            None => es@[2].1 is Null,
        },
{
    let mut body: Vec<(String, Json)> = Vec::new();
    body.push((string_from("code"), Json::Number(string_of(signed_decimal(code).as_slice()))));
    body.push((string_from("message"), Json::Str(string_from(message))));
    envelope("error", Json::Object(body), id)
}

/// `v` is the object whose members are the empty objects named `keys`.
pub open spec fn empty_members(v: Json, keys: Seq<Seq<char>>) -> bool {
    v matches Json::Object(es) && es@.len() == keys.len() && forall|i: int|
        0 <= i < keys.len() ==> (#[trigger] es@[i]).0@ == keys[i] && (es@[i].1 matches Json::Object(inner)
            && inner@.len() == 0)
}

/// The result of `initialize`: protocol version `2024-11-05`, a tools
/// capability, and the server's name and version.
pub fn initialize_result() -> (r: Json)
    ensures
        r matches Json::Object(es) && es@.len() == 3 && es@[0].0@ == "protocolVersion"@ && is_str(
            es@[0].1,
            "2024-11-05"@,
        ) && es@[1].0@ == "capabilities"@ && empty_members(es@[1].1, seq!["tools"@]) && es@[2].0@
            == "serverInfo"@ && (es@[2].1 matches Json::Object(info) && info@.len() == 2 && info@[0].0@
            == "name"@ && is_str(info@[0].1, "Portfolio RAG MCP Server"@) && info@[1].0@ == "version"@
            && is_str(info@[1].1, "0.1.0"@)),
{
    let mut caps: Vec<(String, Json)> = Vec::new();
    caps.push((string_from("tools"), Json::Object(Vec::new())));
    proof {
        assert(empty_members(Json::Object(caps), seq!["tools"@]));
    }
    let mut info: Vec<(String, Json)> = Vec::new();
    info.push((string_from("name"), Json::Str(string_from("Portfolio RAG MCP Server"))));
    info.push((string_from("version"), Json::Str(string_from("0.1.0"))));
    let mut es: Vec<(String, Json)> = Vec::new();
    es.push((string_from("protocolVersion"), Json::Str(string_from("2024-11-05"))));
    es.push((string_from("capabilities"), Json::Object(caps)));
    es.push((string_from("serverInfo"), Json::Object(info)));
    Json::Object(es)
}

} // verus!
