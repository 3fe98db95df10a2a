use mcp_rag::mcp::registry::{conclude, CallOutcome};
use mcp_rag::json::Json;
use mcp_rag::mcp::audit::AuditResult;
use mcp_rag::mcp::error::McpError;
use mcp_rag::mcp::policy::Policy;
use mcp_rag::mcp::registry::{call_event, finish, ToolRegistry};
use mcp_rag::portfolio::catalog::{default_corpora, list_tools};
use mcp_rag::portfolio::report::{
    cache_age_description, context_brief_response, corpus_dir_table, corpus_gaps, descend_into, drift_resolved,
    drift_summary, list_corpora_response, plan_counts, query_args, query_rag_response, required_str, result_entry,
};
use mcp_rag::portfolio::rpc::{
    check_arguments_size, initialize_result, parse_request, request_too_large, rpc_error, rpc_result, select_tool,
    PortfolioCall, PortfolioTool,
};
use mcp_rag::rag::types::RankedChunk;

fn s(v: &str) -> Json {
    Json::Str(v.to_string())
}

fn n(v: &str) -> Json {
    Json::Number(v.to_string())
}

fn obj(es: Vec<(&str, Json)>) -> Json {
    Json::Object(es.into_iter().map(|(k, v)| (k.to_string(), v)).collect())
}

fn get<'a>(v: &'a Json, key: &str) -> &'a Json {
    v.get(key).unwrap_or_else(|| panic!("missing {key}"))
}

fn text(v: &Json) -> &str {
    match v {
        Json::Str(s) => s.as_str(),
        other => panic!("not a string: {:?}", other),
    }
}

fn number(v: &Json) -> &str {
    match v {
        Json::Number(s) => s.as_str(),
        other => panic!("not a number: {:?}", other),
    }
}

// ── requests ────────────────────────────────────────────────────────────

#[test]
fn initialize_request_is_accepted() {
    let req = obj(vec![("jsonrpc", s("2.0")), ("method", s("initialize")), ("id", n("1"))]);
    let r = parse_request(&req).unwrap();
    assert!(matches!(r.call, PortfolioCall::Initialize));
    assert!(matches!(r.id, Some(Json::Number(ref t)) if t == "1"));
}

#[test]
fn request_refusals_name_their_code() {
    let no_version = obj(vec![("method", s("initialize"))]);
    assert_eq!(parse_request(&no_version).unwrap_err(), "Missing jsonrpc version");
    let old = obj(vec![("jsonrpc", s("1.0")), ("method", s("initialize"))]);
    assert_eq!(parse_request(&old).unwrap_err(), "-32600: Unsupported JSON-RPC version: 1.0");
    let no_method = obj(vec![("jsonrpc", s("2.0"))]);
    assert_eq!(parse_request(&no_method).unwrap_err(), "-32600: Missing method");
    let bad = obj(vec![("jsonrpc", s("2.0")), ("method", s("tools;rm"))]);
    assert_eq!(parse_request(&bad).unwrap_err(), "-32601: Invalid method name: tools;rm");
    let unknown = obj(vec![("jsonrpc", s("2.0")), ("method", s("resources/list"))]);
    assert_eq!(parse_request(&unknown).unwrap_err(), "-32601: Unknown method: resources/list");
}

#[test]
fn tool_call_requests() {
    let no_params = obj(vec![("jsonrpc", s("2.0")), ("method", s("tools/call"))]);
    assert_eq!(parse_request(&no_params).unwrap_err(), "-32602: Missing params");
    let no_name = obj(vec![("jsonrpc", s("2.0")), ("method", s("tools/call")), ("params", obj(vec![]))]);
    assert_eq!(parse_request(&no_name).unwrap_err(), "-32602: Missing tool name");
    let bad_name = obj(vec![
        ("jsonrpc", s("2.0")),
        ("method", s("tools/call")),
        ("params", obj(vec![("name", s("query-rag"))])),
    ]);
    assert_eq!(parse_request(&bad_name).unwrap_err(), "-32601: Invalid tool name: query-rag");
    let ok = obj(vec![
        ("jsonrpc", s("2.0")),
        ("method", s("tools/call")),
        ("params", obj(vec![("name", s("query_rag")), ("arguments", obj(vec![("query", s("auth"))]))])),
    ]);
    match parse_request(&ok).unwrap().call {
        PortfolioCall::CallTool { name, arguments } => {
            assert_eq!(name, "query_rag");
            assert!(arguments.is_some());
            assert!(matches!(select_tool(&name, arguments), Ok(PortfolioTool::QueryRag(_))));
        }
        other => panic!("unexpected {:?}", other),
    }
    assert!(parse_request(&ok).unwrap().id.is_none());
}

#[test]
fn tool_selection() {
    assert_eq!(select_tool("context_brief", None).unwrap_err(), "-32602: Missing arguments");
    assert!(matches!(select_tool("list_corpora", None), Ok(PortfolioTool::ListCorpora)));
    assert!(matches!(select_tool("reindex_status", Some(Json::Null)), Ok(PortfolioTool::ReindexStatus)));
    assert_eq!(select_tool("drop_tables", None).unwrap_err(), "-32601: Unknown tool: drop_tables");
    assert_eq!(check_arguments_size(100_001).unwrap_err(), "-32602: Arguments too large: 100001 bytes");
    assert!(check_arguments_size(100_000).is_ok());
    assert!(request_too_large(1_048_577));
    assert!(!request_too_large(1_048_576));
}

#[test]
fn envelopes() {
    let r = rpc_result(None, s("ok"));
    assert_eq!(text(get(&r, "jsonrpc")), "2.0");
    assert!(matches!(get(&r, "id"), Json::Null));
    let e = rpc_error(Some(n("7")), -32603, "Processing timeout");
    let body = get(&e, "error");
    assert_eq!(number(get(body, "code")), "-32603");
    assert_eq!(text(get(body, "message")), "Processing timeout");
    let init = initialize_result();
    assert_eq!(text(get(&init, "protocolVersion")), "2024-11-05");
    assert_eq!(text(get(get(&init, "serverInfo"), "name")), "Portfolio RAG MCP Server");
}

// ── catalogue ───────────────────────────────────────────────────────────

#[test]
fn catalogue_lists_five_tools() {
    let tools = list_tools();
    let names: Vec<&str> = tools.iter().map(|t| t.name.as_str()).collect();
    assert_eq!(names, vec!["context_brief", "query_rag", "list_corpora", "get_corpus_stats", "project_health"]);
    let q = &tools[1].input_schema;
    assert_eq!(number(get(get(get(q, "properties"), "top_k"), "default")), "5");
    match get(q, "required") {
        Json::Array(r) => assert_eq!(text(&r[0]), "query"),
        other => panic!("unexpected {:?}", other),
    }
    assert_eq!(default_corpora().len(), 9);
}

// ── reports ─────────────────────────────────────────────────────────────

#[test]
fn query_arguments_defaults() {
    let a = query_args(&obj(vec![("query", s("auth"))])).unwrap();
    assert_eq!(a.top_k, 5);
    assert_eq!(a.max_content_len, Some(500));
    assert!(a.corpus.is_none());
    let b = query_args(&obj(vec![
        ("query", s("auth")),
        ("corpus", s("rust")),
        ("top_k", n("3")),
        ("max_content_length", n("0")),
    ]))
    .unwrap();
    assert_eq!(b.top_k, 3);
    assert_eq!(b.max_content_len, None);
    assert_eq!(b.corpus.as_deref(), Some("rust"));
    let c = query_args(&obj(vec![("query", s("q")), ("top_k", n("2.5"))])).unwrap();
    assert_eq!(c.top_k, 5);
    assert_eq!(query_args(&obj(vec![])).unwrap_err(), "Missing 'query' parameter");
    assert_eq!(required_str(&obj(vec![]), "task").unwrap_err(), "Missing 'task' parameter");
}

fn ranked(content: &str) -> RankedChunk {
    RankedChunk {
        chunk_id: 42,
        document_id: 1,
        source_kind: "plan".to_string(),
        source_path: "plans/a.md".to_string(),
        git_sha: "abc".to_string(),
        ord: 0,
        content: content.to_string(),
        score_bits: 0,
    }
}

#[test]
fn results_are_cut_to_the_limit() {
    let e = result_entry(&ranked("abcdefgh"), n("0.5"), Some(3));
    assert_eq!(text(get(&e, "content")), "abc");
    assert!(matches!(get(&e, "truncated"), Json::Bool(true)));
    assert_eq!(number(get(&e, "id")), "42");
    let full = result_entry(&ranked("abc"), n("0.5"), Some(3));
    assert!(matches!(get(&full, "truncated"), Json::Bool(false)));
    let wide = result_entry(&ranked("éé"), n("1"), Some(3));
    assert_eq!(text(get(&wide, "content")), "éé");
    assert!(matches!(get(&wide, "truncated"), Json::Bool(true)));
    let all = result_entry(&ranked("abcdefgh"), n("1"), None);
    assert_eq!(text(get(&all, "content")), "abcdefgh");
}

#[test]
fn brief_names_each_corpus_once() {
    let results = vec![
        obj(vec![("corpus", s("plan")), ("source_path", s("a.md")), ("content", s("x")), ("score", n("1"))]),
        obj(vec![("corpus", s("rust")), ("source_path", s("b.rs"))]),
        obj(vec![("corpus", s("plan")), ("source_path", s("c.md"))]),
        obj(vec![]),
    ];
    let b = context_brief_response("fix auth", &results);
    match get(&b, "relevant_corpora") {
        Json::Array(cs) => {
            let names: Vec<&str> = cs.iter().map(text).collect();
            assert_eq!(names, vec!["plan", "rust", "unknown"]);
        }
        other => panic!("unexpected {:?}", other),
    }
    match get(&b, "top_documents") {
        Json::Array(ds) => {
            assert_eq!(ds.len(), 4);
            assert_eq!(text(get(&ds[1], "path")), "b.rs");
            assert_eq!(text(get(&ds[1], "preview")), "");
            assert!(matches!(get(&ds[1], "score"), Json::Null));
        }
        other => panic!("unexpected {:?}", other),
    }
    let q = query_rag_response("auth", None, vec![Json::Null, Json::Null]);
    assert_eq!(number(get(&q, "result_count")), "2");
    assert!(matches!(get(&q, "corpus_filter"), Json::Null));
    let l = list_corpora_response(&default_corpora());
    assert_eq!(number(get(&l, "corpus_count")), "9");
}

#[test]
fn plan_index_counts_done_modules() {
    let index = "| Module | Status |\n|---|---|\n| auth | done |\n| api | in progress |\n| ui | DONE |\nnotes\n";
    assert_eq!(plan_counts(index), (3, 2));
    assert_eq!(plan_counts(""), (0, 0));
}

#[test]
fn drift_logs() {
    assert!(drift_resolved("Status: resolved"));
    assert!(!drift_resolved("Status: partially resolved"));
    assert!(!drift_resolved("Status: open"));
    let d = drift_summary(5, 2);
    assert_eq!(number(get(&d, "open")), "3");
}

#[test]
fn cache_age_buckets() {
    assert_eq!(cache_age_description(59), "0 minutes ago");
    assert_eq!(cache_age_description(3599), "59 minutes ago");
    assert_eq!(cache_age_description(7200), "2 hours ago");
    assert_eq!(cache_age_description(3 * 86400), "3 days ago");
}

#[test]
fn corpus_gaps_report_missing_documents() {
    let table = corpus_dir_table();
    assert_eq!(table.len(), 6);
    assert_eq!(table[3].extensions, vec!["ts".to_string(), "tsx".to_string()]);
    let indexed = vec![("rust".to_string(), 10i64), ("plan".to_string(), 4i64)];
    let fs = vec![vec![6, 3, 1], vec![2], vec![4], vec![0], vec![0], vec![1]];
    let g = corpus_gaps(&indexed, &fs);
    assert_eq!(number(get(&g, "gap_count")), "2");
    match get(&g, "gaps") {
        Json::Array(gs) => {
            assert_eq!(text(get(&gs[0], "corpus")), "hcl");
            assert_eq!(number(get(&gs[0], "gap")), "2");
            assert_eq!(text(get(&gs[1], "corpus")), "python");
        }
        other => panic!("unexpected {:?}", other),
    }
    assert!(descend_into("src"));
    assert!(!descend_into(".git"));
    assert!(!descend_into("node_modules"));
    assert!(!descend_into("target"));
}

// ── tool registry ───────────────────────────────────────────────────────

#[test]
fn registry_registers_each_name_once() {
    let mut reg = ToolRegistry::new();
    assert!(reg.is_empty());
    reg.register("read_file");
    reg.register("read_file");
    reg.register("say_hello");
    assert_eq!(reg.len(), 2);
    assert!(reg.has_tool("say_hello"));
}

#[test]
fn registry_lists_only_allowed_tools() {
    let mut policy = Policy::new();
    policy.disabled_tools = vec!["cargo_build".to_string()];
    let mut reg = ToolRegistry::new_with_policy(policy);
    reg.register("cargo_build");
    reg.register("say_hello");
    assert_eq!(reg.listed(), vec!["say_hello".to_string()]);
}

#[test]
fn registry_call_steps() {
    let mut policy = Policy::new();
    policy.disabled_tools = vec!["cargo_build".to_string()];
    let mut reg = ToolRegistry::new_with_policy(policy);
    reg.register("say_hello");
    match reg.authorize("cargo_build", &Json::Object(vec![])) {
        Err((McpError::PolicyDenied { reason }, AuditResult::PolicyDenied { reason: logged })) => {
            assert_eq!(reason, "Tool 'cargo_build' is disabled by policy");
            assert!(logged.contains("disabled by policy"));
        }
        other => panic!("unexpected {:?}", other),
    }
    assert!(reg.authorize("say_hello", &Json::Object(vec![])).is_ok());
    match reg.lookup("health") {
        Err((McpError::ToolNotFound { tool_name }, AuditResult::Error { code, .. })) => {
            assert_eq!(tool_name, "health");
            assert!(code.is_some());
        }
        other => panic!("unexpected {:?}", other),
    }
    let (out, audit) = finish(Ok(s("hi")));
    assert!(matches!(out, Ok(Json::Str(ref t)) if t == "hi"));
    assert!(matches!(audit, AuditResult::Success { .. }));
    let ev = call_event("r1".to_string(), Json::Null, "say_hello", Json::Null, audit, 3);
    assert_eq!(ev.policy_checks, vec!["policy_authorization".to_string()]);
}

#[test]
fn call_steps_and_their_one_audit_outcome() {
    let mut reg = ToolRegistry::new();
    reg.register("health");
    let args = mcp_rag::json::Json::Object(vec![]);
    let checks = reg.begin_call("health", &args).unwrap();
    assert!(checks.is_empty());
    match reg.begin_call("no_such_tool", &args) {
        Err(CallOutcome::Denied(McpError::PolicyDenied { reason })) => assert_eq!(reason, "Unknown tool: no_such_tool"),
        other => panic!("unexpected {:?}", other),
    }
    assert!(reg.after_paths("health", Ok(())).is_none());
    match reg.after_paths("say_hello", Ok(())) {
        Some(CallOutcome::NotFound(McpError::ToolNotFound { tool_name })) => assert_eq!(tool_name, "say_hello"),
        other => panic!("unexpected {:?}", other),
    }
    match reg.after_paths("health", Err(McpError::security_violation("x"))) {
        Some(CallOutcome::Denied(McpError::SecurityViolation { details })) => assert_eq!(details, "x"),
        other => panic!("unexpected {:?}", other),
    }
    let (r, a) = conclude(CallOutcome::Denied(McpError::policy_denied("no")));
    assert!(r.is_err());
    assert!(matches!(a, AuditResult::PolicyDenied { reason } if reason == "Policy denied access: no"));
    let (r, a) = conclude(CallOutcome::NotFound(McpError::tool_not_found("t")));
    assert!(r.is_err());
    assert!(matches!(a, AuditResult::Error { message, code: Some(-32601) } if message == "Tool not found: t"));
    let (r, a) = conclude(CallOutcome::Ran(Ok(mcp_rag::json::Json::Bool(true))));
    assert!(matches!(r, Ok(mcp_rag::json::Json::Bool(true))));
    assert!(matches!(a, AuditResult::Success { output: mcp_rag::json::Json::Bool(true) }));
}
