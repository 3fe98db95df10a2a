use mcp_rag::rag::chunk::chunk_file;
use mcp_rag::json::Json;
use mcp_rag::rag::assembler::DefaultPromptAssembler;
use mcp_rag::rag::chunk::claude_cache::{self, JsonParts};
use mcp_rag::rag::chunk::window::MAX_TOKENS;
use mcp_rag::rag::chunk::{hcl, markdown, openapi, portfolio, python, rust, typescript};
use mcp_rag::rag::error::RagError;
use mcp_rag::rag::eval::{groundedness_counts, split_sentences, verdict, verify_citation_refs, VerdictKind};
use mcp_rag::rag::hybrid::{HybridRetriever, QueryIntent};
use mcp_rag::rag::types::{Chunk, RankedChunk, SourceKind};

type Hybrid = HybridRetriever<(), ()>;

const MD_FIXTURE: &str = "\
# Top Title

Preamble text before any H2.

## Section One

Content of section one. This is some text about Rust and async systems.

## Section Two

Content of section two. SQLite and EFS storage.

### Sub-section

A sub-section under two.
";

const HCL_FIXTURE: &str = r#"
terraform {
  required_version = ">= 1.6"
  required_providers {
    aws = { source = "hashicorp/aws", version = "~> 5.0" }
  }
}

variable "region" {
  type    = string
  default = "us-east-1"
}

resource "aws_lambda_function" "ui" {
  function_name = "deploy-baba-ui"
  runtime       = "provided.al2023"
  handler       = "bootstrap"
  filename      = "lambda.zip"

  environment {
    variables = {
      DB_PATH = "/mnt/efs/deploy-baba.db"
    }
  }
}
"#;

const PY_FIXTURE: &str = r#"
"""LangGraph ReAct agent for cover letter generation."""

from __future__ import annotations

import os
from typing import Any

from langchain_anthropic import ChatAnthropic
from langgraph.graph import StateGraph


SYSTEM_PROMPT = "You are a cover letter assistant."


def _get_llm() -> ChatAnthropic:
    """Return the configured Anthropic LLM."""
    model = os.environ.get("ANTHROPIC_MODEL", "sonnet-4-5-20250929")
    return ChatAnthropic(model=model, max_tokens=4096)


async def agent_node(state: dict) -> dict:
    """Call the LLM with tools bound."""
    llm = _get_llm()
    response = await llm.ainvoke(state["messages"])
    return {"messages": [response]}


class RAGSyncState:
    """State for the RAG sync graph."""
    health: dict | None = None
    failures: list | None = None
"#;

const RS_FIXTURE: &str = r#"
use std::collections::HashMap;

pub struct Config {
    pub name: String,
    pub value: u32,
}

impl Config {
    pub fn new(name: &str) -> Self {
        Self { name: name.to_owned(), value: 0 }
    }
}

pub fn process(config: &Config) -> String {
    format!("{}: {}", config.name, config.value)
}

pub trait Processable {
    fn process(&self) -> String;
}
"#;

const TS_FIXTURE: &str = r#"
import { useState } from 'react'
import { Link, useNavigate } from 'react-router-dom'

const AUTH_BASE = ''

export default function Login() {
  const navigate = useNavigate()
  const [username, setUsername] = useState('')
  const [error, setError] = useState('')

  const handleSubmit = async (e: React.FormEvent) => {
    e.preventDefault()
    const resp = await fetch(`${AUTH_BASE}/api/auth/signin`, {
      method: 'POST',
      headers: { 'Content-Type': 'application/json' },
      body: JSON.stringify({ username }),
    })
    if (resp.ok) navigate('/dashboard')
  }

  return (
    <form onSubmit={handleSubmit}>
      <input value={username} onChange={e => setUsername(e.target.value)} />
      {error && <p>{error}</p>}
      <button type="submit">Login</button>
    </form>
  )
}
"#;

fn joined(chunks: &[Chunk]) -> String {
    chunks.iter().map(|c| c.content.as_str()).collect::<Vec<_>>().join(" ")
}

fn assert_ascending(chunks: &[Chunk]) {
    for (i, c) in chunks.iter().enumerate() {
        assert_eq!(c.ord, i);
    }
}

fn assert_token_counts(chunks: &[Chunk]) {
    for c in chunks {
        let actual = c.content.split_whitespace().count();
        assert_eq!(c.token_count, actual);
    }
}

fn meta_str<'a>(c: &'a Chunk, key: &str) -> Option<&'a str> {
    match &c.meta {
        Json::Object(es) => es.iter().find(|(k, _)| k == key).and_then(|(_, v)| match v {
            Json::Str(s) => Some(s.as_str()),
            _ => None,
        }),
        _ => None,
    }
}

/// The top-level parts of a JSON document, as the program reads them.
fn parts_of(text: &str) -> Option<JsonParts> {
    match serde_json::from_str::<serde_json::Value>(text) {
        Ok(serde_json::Value::Object(map)) => Some(JsonParts::Members(
            map.iter()
                .map(|(k, v)| (k.clone(), serde_json::to_string_pretty(v).unwrap()))
                .collect(),
        )),
        Ok(serde_json::Value::Array(items)) => Some(JsonParts::Elements(
            items.iter().map(|v| serde_json::to_string_pretty(v).unwrap()).collect(),
        )),
        _ => None,
    }
}

fn cache_chunk(path: &str, content: &str) -> Vec<Chunk> {
    let parts = parts_of(content);
    claude_cache::chunk(path, content, parts.as_ref())
}

// ── markdown ────────────────────────────────────────────────────────────

#[test]
fn markdown_produces_non_empty_chunks() {
    let chunks = markdown::chunk("plans/test.md", MD_FIXTURE);
    assert!(!chunks.is_empty(), "should produce at least one chunk");
}

#[test]
fn sections_are_separate_chunks() {
    let chunks = markdown::chunk("plans/test.md", MD_FIXTURE);
    assert!(chunks.len() >= 3);
}

#[test]
fn markdown_chunks_have_ascending_ord() {
    let chunks = markdown::chunk("plans/test.md", MD_FIXTURE);
    assert_ascending(&chunks);
}

#[test]
fn markdown_token_count_matches_word_count() {
    let chunks = markdown::chunk("plans/test.md", MD_FIXTURE);
    assert_token_counts(&chunks);
}

#[test]
fn oversize_chunk_is_split() {
    let many_words = "word ".repeat(1600);
    let content = format!("## Long Section\n\n{}", many_words);
    let chunks = markdown::chunk("test.md", &content);
    for c in &chunks {
        assert!(c.token_count <= MAX_TOKENS, "chunk {} has {} tokens", c.ord, c.token_count);
    }
    assert!(chunks.len() >= 2, "oversize section should split into multiple chunks");
}

#[test]
fn markdown_sections_keep_heading_and_path() {
    let chunks = markdown::chunk("plans/test.md", MD_FIXTURE);
    assert_eq!(chunks.len(), 4);
    assert_eq!(chunks[0].content, "# Top Title\n\nPreamble text before any H2.");
    assert!(chunks[1].content.starts_with("## Section One"));
    assert!(chunks[3].content.starts_with("### Sub-section"));
    assert_eq!(meta_str(&chunks[1], "path"), Some("plans/test.md"));
    assert_eq!(meta_str(&chunks[1], "heading"), Some("## Section One"));
}

#[test]
fn markdown_windows_overlap_by_fifty_words() {
    let words: Vec<String> = (0..1000).map(|i| format!("w{i}")).collect();
    let content = words.join(" ");
    let chunks = markdown::chunk("long.md", &content);
    assert_eq!(chunks.len(), 2);
    assert_eq!(chunks[0].token_count, 800);
    assert_eq!(chunks[1].token_count, 250);
    assert!(chunks[1].content.starts_with("w750 "));
}

#[test]
fn markdown_empty_file_produces_no_chunks() {
    assert!(markdown::chunk("empty.md", "").is_empty());
    assert!(markdown::chunk("blank.md", "  \n\n  ").is_empty());
}

// ── hcl ─────────────────────────────────────────────────────────────────

#[test]
fn produces_one_chunk_per_block() {
    let chunks = hcl::chunk("infra/main.tf", HCL_FIXTURE);
    assert_eq!(chunks.len(), 3, "expected 3 top-level blocks, got {}", chunks.len());
}

#[test]
fn hcl_chunks_have_ascending_ord() {
    let chunks = hcl::chunk("infra/main.tf", HCL_FIXTURE);
    assert_ascending(&chunks);
}

#[test]
fn hcl_empty_file_produces_no_chunks() {
    let chunks = hcl::chunk("infra/empty.tf", "");
    assert!(chunks.is_empty());
}

#[test]
fn hcl_token_count_matches_word_count() {
    let chunks = hcl::chunk("infra/main.tf", HCL_FIXTURE);
    assert_token_counts(&chunks);
}

#[test]
fn hcl_block_starts() {
    assert!(hcl::is_block_start("resource \"aws_s3_bucket\" \"b\" {"));
    assert!(hcl::is_block_start("  terraform {"));
    assert!(!hcl::is_block_start("terraform"));
    assert!(!hcl::is_block_start("nested {"));
    assert!(!hcl::is_block_start("region = \"x\""));
}

// ── python ──────────────────────────────────────────────────────────────

#[test]
fn python_produces_non_empty_chunks() {
    let chunks = python::chunk("services/agent/src/agent/graph.py", PY_FIXTURE);
    assert!(!chunks.is_empty());
}

#[test]
fn captures_functions() {
    let chunks = python::chunk("services/agent/src/agent/graph.py", PY_FIXTURE);
    let joined = joined(&chunks);
    assert!(joined.contains("_get_llm"), "should contain function name");
    assert!(joined.contains("agent_node"), "should contain async function name");
}

#[test]
fn captures_class() {
    let chunks = python::chunk("services/agent/src/agent/graph.py", PY_FIXTURE);
    assert!(joined(&chunks).contains("RAGSyncState"), "should contain class name");
}

#[test]
fn captures_decorated_functions() {
    let decorated = r#"
from langchain_core.tools import tool

@tool
def check_rag_health() -> str:
    """Get RAG system health."""
    return "healthy"

@tool
def get_eval_report() -> str:
    """Get eval report."""
    return "report"
"#;
    let chunks = python::chunk("services/agent/src/agent/tools/rag_eval.py", decorated);
    assert!(!chunks.is_empty());
    let joined = joined(&chunks);
    assert!(joined.contains("check_rag_health"), "should contain decorated function");
    assert!(joined.contains("@tool"), "should include decorator");
}

#[test]
fn python_empty_file_produces_no_chunks() {
    let chunks = python::chunk("empty.py", "");
    assert!(chunks.is_empty());
}

#[test]
fn python_chunks_have_ascending_ord() {
    let chunks = python::chunk("services/agent/src/agent/graph.py", PY_FIXTURE);
    assert_ascending(&chunks);
}

#[test]
fn python_line_classes() {
    assert_eq!(python::indent_level("    x = 1"), 4);
    assert_eq!(python::indent_level("x"), 0);
    assert!(python::is_decorator("@tool"));
    assert!(python::is_decorator("  @tool"));
    assert!(!python::is_decorator("x = 1  # @tool"));
    assert!(python::is_item_start("async def f():"));
    assert!(python::is_item_start("    def method(self):"));
    assert!(!python::is_item_start("SYSTEM_PROMPT = 1"));
}

// ── rust ────────────────────────────────────────────────────────────────

#[test]
fn rust_produces_non_empty_chunks() {
    let chunks = rust::chunk("src/lib.rs", RS_FIXTURE);
    assert!(!chunks.is_empty(), "should produce at least one chunk");
}

#[test]
fn captures_struct_and_impl_and_fn() {
    let chunks = rust::chunk("src/lib.rs", RS_FIXTURE);
    let joined = joined(&chunks);
    assert!(joined.contains("Config"), "should contain struct Config");
    assert!(joined.contains("process"), "should contain fn process");
}

#[test]
fn rust_chunks_have_ascending_ord() {
    let chunks = rust::chunk("src/lib.rs", RS_FIXTURE);
    assert_ascending(&chunks);
}

#[test]
fn rust_token_count_matches_word_count() {
    let chunks = rust::chunk("src/lib.rs", RS_FIXTURE);
    assert_token_counts(&chunks);
}

#[test]
fn rust_empty_file_produces_no_chunks() {
    let chunks = rust::chunk("src/empty.rs", "");
    assert!(chunks.is_empty());
}

#[test]
fn rust_item_starts() {
    assert!(rust::is_item_start("pub fn f() {"));
    assert!(rust::is_item_start("impl Config {"));
    assert!(rust::is_item_start("    pub fn new() {"));
    assert!(!rust::is_item_start("use std::fmt;"));
}

// ── typescript ──────────────────────────────────────────────────────────

#[test]
fn typescript_produces_non_empty_chunks() {
    let chunks = typescript::chunk("web/src/routes/auth/Login.tsx", TS_FIXTURE);
    assert!(!chunks.is_empty());
}

#[test]
fn captures_component_function() {
    let chunks = typescript::chunk("web/src/routes/auth/Login.tsx", TS_FIXTURE);
    let joined = joined(&chunks);
    assert!(joined.contains("Login"), "should contain component name");
    assert!(joined.contains("signin"), "should contain API call");
}

#[test]
fn captures_hook() {
    let hook = r#"
import { useEffect, useState } from 'react'

export function useAuth(redirect = true) {
  const [state, setState] = useState({ loading: true, authenticated: false })

  useEffect(() => {
    fetch('/api/auth/me')
      .then(r => r.json())
      .then(data => setState({ loading: false, authenticated: data.authenticated }))
  }, [])

  return state
}
"#;
    let chunks = typescript::chunk("web/src/hooks/useAuth.ts", hook);
    assert!(!chunks.is_empty());
    let joined = joined(&chunks);
    assert!(joined.contains("useAuth"), "should contain hook name");
    assert!(joined.contains("/api/auth/me"), "should contain API endpoint");
}

#[test]
fn captures_interface() {
    let ts = "export interface AuthState {\n  loading: boolean\n  authenticated: boolean\n  email: string | null\n}\n";
    let chunks = typescript::chunk("web/src/types.ts", ts);
    assert!(!chunks.is_empty());
    assert!(chunks[0].content.contains("AuthState"));
}

#[test]
fn typescript_empty_file_produces_no_chunks() {
    let chunks = typescript::chunk("web/src/empty.ts", "");
    assert!(chunks.is_empty());
}

#[test]
fn typescript_chunks_have_ascending_ord() {
    let chunks = typescript::chunk("web/src/routes/auth/Login.tsx", TS_FIXTURE);
    assert_ascending(&chunks);
}

// ── agent cache ─────────────────────────────────────────────────────────

#[test]
fn json_object_one_chunk_per_key() {
    let json = r#"{"foo": "bar", "baz": 42}"#;
    let chunks = cache_chunk("cache/index.json", json);
    assert_eq!(chunks.len(), 2);
    assert!(chunks[0].content.contains("foo") || chunks[1].content.contains("foo"));
}

#[test]
fn json_array_one_chunk_per_element() {
    let json = r#"["alpha", "beta", "gamma"]"#;
    let chunks = cache_chunk("cache/list.json", json);
    assert_eq!(chunks.len(), 3);
}

#[test]
fn md_file_delegates_to_markdown_chunker() {
    let md = "## Heading\n\nSome text here.\n\n## Another\n\nMore text.";
    let chunks_cache = cache_chunk("cache/memory.md", md);
    let chunks_md = markdown::chunk("cache/memory.md", md);
    assert_eq!(chunks_cache.len(), chunks_md.len());
}

#[test]
fn plain_text_sliding_window() {
    let text = "word ".repeat(1600);
    let chunks = cache_chunk("cache/misc.txt", text.trim());
    for c in &chunks {
        assert!(c.token_count <= 800);
    }
    assert!(chunks.len() >= 2);
}

#[test]
fn claude_cache_chunks_have_ascending_ord() {
    let json = r#"{"a": 1, "b": 2, "c": 3}"#;
    let chunks = cache_chunk("cache/x.json", json);
    assert_ascending(&chunks);
}

#[test]
fn json_member_chunk_is_key_and_value() {
    let parts = JsonParts::Members(vec![("name".to_string(), "\"deploy\"".to_string())]);
    let chunks = claude_cache::chunk("cache/a.json", "{}", Some(&parts));
    assert_eq!(chunks.len(), 1);
    assert_eq!(chunks[0].content, "name: \"deploy\"");
    assert_eq!(meta_str(&chunks[0], "key"), Some("name"));
    assert_eq!(meta_str(&chunks[0], "path"), Some("cache/a.json"));
}

#[test]
fn invalid_json_falls_back_to_window() {
    let chunks = cache_chunk("cache/broken.json", "{ not json");
    assert_eq!(chunks.len(), 1);
    assert_eq!(chunks[0].content, "{ not json");
}

// ── assembler ───────────────────────────────────────────────────────────

fn make_chunk(n: usize, content: &str) -> RankedChunk {
    RankedChunk {
        chunk_id: n as i64,
        document_id: 1,
        source_kind: "plan".to_string(),
        source_path: format!("plans/test{n}.md"),
        git_sha: "abc123".to_string(),
        ord: n as i64,
        content: content.to_string(),
        score_bits: 1.0f64.to_bits(),
    }
}

#[test]
fn assembler_includes_all_citations() {
    let assembler = DefaultPromptAssembler;
    let chunks = vec![
        make_chunk(0, "SQLite is used for storage."),
        make_chunk(1, "ADR-002 says no PostgreSQL."),
    ];
    let bundle = assembler.assemble("What database does deploy-baba use?", &chunks);

    assert_eq!(bundle.citations.len(), 2);
    assert!(bundle.system_prompt.contains("<source n=\"1\""));
    assert!(bundle.system_prompt.contains("<source n=\"2\""));
    assert!(bundle.system_prompt.contains("SQLite is used for storage."));
    assert!(bundle.user_message.contains("deploy-baba"));
}

#[test]
fn assembler_empty_chunks_has_no_citations() {
    let assembler = DefaultPromptAssembler;
    let bundle = assembler.assemble("what?", &[]);
    assert!(bundle.citations.is_empty());
}

#[test]
fn assembler_source_tag_is_exact() {
    let bundle = DefaultPromptAssembler.assemble("q", &[make_chunk(3, "body")]);
    assert!(bundle
        .system_prompt
        .ends_with("<source n=\"1\" kind=\"plan\" path=\"plans/test3.md\" sha=\"abc123\">\nbody\n</source>\n\n"));
    assert_eq!(bundle.citations[0].ord, 3);
    assert_eq!(bundle.citations[0].path, "plans/test3.md");
}

// ── eval ────────────────────────────────────────────────────────────────

fn score(answer: &str) -> f32 {
    let (cited, total) = groundedness_counts(answer);
    if total == 0 {
        1.0
    } else {
        cited as f32 / total as f32
    }
}

fn validate(answer: &str, chunk_count: usize, is_retry: bool, min: f32, max_invalid: usize) -> (VerdictKind, f32, Vec<usize>) {
    let g = score(answer);
    let (_, invalid) = verify_citation_refs(answer, chunk_count);
    (verdict(g >= min, invalid.len(), max_invalid, is_retry), g, invalid)
}

#[test]
fn fully_cited_answer() {
    let answer = "SQLite is used for storage [source 1]. \
                   ADR-002 forbids PostgreSQL [source 2]. \
                   The database lives on EFS [source 1].";
    assert!((score(answer) - 1.0).abs() < f32::EPSILON);
}

#[test]
fn partially_cited_answer() {
    let answer = "SQLite is the database [source 1]. \
                   It runs on Lambda. \
                   EFS provides persistent storage [source 3].";
    let s = score(answer);
    assert!(s > 0.5 && s < 1.0);
}

#[test]
fn uncited_answer() {
    let answer = "The project uses Rust and AWS. \
                   It deploys to Lambda via a zip archive.";
    assert!(score(answer) < f32::EPSILON);
}

#[test]
fn empty_answer() {
    assert!((score("") - 1.0).abs() < f32::EPSILON);
}

#[test]
fn verify_valid_refs() {
    let answer = "Uses SQLite [source 1] and Lambda [source 3].";
    let (valid, invalid) = verify_citation_refs(answer, 5);
    assert_eq!(valid, 2);
    assert!(invalid.is_empty());
}

#[test]
fn verify_catches_invalid_refs() {
    let answer = "Real source [source 2]. Hallucinated [source 99].";
    let (valid, invalid) = verify_citation_refs(answer, 5);
    assert_eq!(valid, 1);
    assert_eq!(invalid, vec![99]);
}

#[test]
fn validator_accepts_well_grounded_answer() {
    let answer = "SQLite is used [source 1]. ADR-002 forbids PostgreSQL [source 2].";
    assert_eq!(validate(answer, 3, false, 0.5, 0).0, VerdictKind::Accept);
}

#[test]
fn validator_retries_poorly_grounded_first_attempt() {
    let answer = "The project uses Rust and AWS. It deploys to Lambda.";
    let (v, g, _) = validate(answer, 3, false, 0.5, 0);
    assert_eq!(v, VerdictKind::RetryWithUpgrade);
    assert!(g < 0.5);
}

#[test]
fn validator_rejects_on_retry_failure() {
    let answer = "The project uses Rust and AWS. It deploys to Lambda.";
    let (v, g, _) = validate(answer, 3, true, 0.5, 0);
    assert_eq!(v, VerdictKind::Reject);
    assert!(g < 0.5);
}

#[test]
fn validator_rejects_invalid_citation_refs() {
    let answer = "SQLite is used [source 1]. Also [source 99].";
    let (v, _, invalid) = validate(answer, 3, false, 0.5, 0);
    assert_eq!(v, VerdictKind::RetryWithUpgrade);
    assert!(invalid.contains(&99));
}

#[test]
fn validator_custom_thresholds() {
    let answer = "SQLite is used [source 1]. Lambda runs it. EFS stores data [source 2].";
    assert_eq!(validate(answer, 3, false, 0.8, 1).0, VerdictKind::RetryWithUpgrade);
}

#[test]
fn sentences_split_on_terminators_and_drop_fragments() {
    let s = split_sentences("First one here. Ok. Second sentence! Third?");
    assert_eq!(s, vec!["First one here".to_string(), "Second sentence".to_string()]);
    assert_eq!(groundedness_counts("Cited claim [source 1]. Bare claim here."), (1, 2));
}

#[test]
fn citation_zero_is_invalid() {
    let (valid, invalid) = verify_citation_refs("Bad [source 0] and good [source 1].", 1);
    assert_eq!(valid, 1);
    assert_eq!(invalid, vec![0]);
}

// ── hybrid retrieval ────────────────────────────────────────────────────

fn live(kind: &str, path: &str) -> RankedChunk {
    RankedChunk {
        chunk_id: 0,
        document_id: 0,
        source_kind: kind.to_string(),
        source_path: path.to_string(),
        git_sha: "live".to_string(),
        ord: 0,
        content: format!("{kind} {path}"),
        score_bits: 0,
    }
}

#[test]
fn portfolio_budget_follows_query_kind() {
    assert_eq!(Hybrid::portfolio_budget_for("what skills?", 10), 5);
    assert_eq!(Hybrid::portfolio_budget_for("how is authentication implemented?", 10), 2);
    assert_eq!(Hybrid::portfolio_budget_for("what skills relate to authentication?", 10), 3);
    assert_eq!(Hybrid::portfolio_budget_for("how does the error handling macro expand?", 20), 0);
    assert_eq!(Hybrid::portfolio_budget_for("what EXPERIENCE?", 3), 3);
}

#[test]
fn intent_reads_keywords() {
    let q = Hybrid::parse_intent("tell me about your challenge project outcomes");
    assert_eq!(q, QueryIntent { skills: false, challenges: true, architecture: false });
    let q = Hybrid::parse_intent("Which SKILLS and architecture?");
    assert!(q.skills && q.architecture && !q.challenges);
}

#[test]
fn live_mix_spreads_the_budget() {
    let none = QueryIntent { skills: false, challenges: false, architecture: false };
    let skills = QueryIntent { skills: true, challenges: false, architecture: false };
    let challenges = QueryIntent { skills: false, challenges: true, architecture: false };
    assert_eq!(Hybrid::live_mix_from_intent(none, 0), [0, 0, 0, 0]);
    assert_eq!(Hybrid::live_mix_from_intent(none, 5), [2, 1, 1, 1]);
    assert_eq!(Hybrid::live_mix_from_intent(skills, 3), [0, 1, 1, 1]);
    assert_eq!(Hybrid::live_mix_from_intent(challenges, 10), [3, 2, 2, 3]);
    assert_eq!(Hybrid::live_mix_from_intent(none, 2).iter().sum::<usize>(), 2);
}

#[test]
fn select_live_fills_from_overflow_without_repeats() {
    let queues = vec![
        vec![live("job", "portfolio://job/1"), live("job", "portfolio://job/2")],
        vec![live("competency", "portfolio://competency/1")],
        vec![],
        vec![live("challenge", "portfolio://challenge/1")],
    ];
    let overflow = vec![
        live("job", "portfolio://job/1"),
        live("about", "portfolio://about/1"),
        live("job", "portfolio://job/3"),
    ];
    let out = Hybrid::select_live([1, 1, 0, 1], &queues, &overflow, 4);
    let paths: Vec<&str> = out.iter().map(|c| c.source_path.as_str()).collect();
    assert_eq!(
        paths,
        vec!["portfolio://job/1", "portfolio://competency/1", "portfolio://challenge/1", "portfolio://about/1"]
    );
}

#[test]
fn merge_puts_live_first_and_caps_at_top_k() {
    let l = vec![live("job", "a"), live("job", "b")];
    let f = vec![live("rust", "c"), live("rust", "d")];
    let out = Hybrid::merge(l, f, 3);
    let paths: Vec<&str> = out.iter().map(|c| c.source_path.as_str()).collect();
    assert_eq!(paths, vec!["a", "b", "c"]);
}

// ── types and errors ────────────────────────────────────────────────────

#[test]
fn source_kind_names() {
    assert_eq!(SourceKind::Rust.as_str(), "rust");
    assert_eq!(SourceKind::Cache.as_str(), "cache");
}

#[test]
fn rag_error_messages() {
    assert_eq!(RagError::Database("locked".to_string()).message(), "database error: locked");
}

// ── JSON documents ──────────────────────────────────────────────────────

fn to_doc(v: &serde_json::Value) -> Json {
    match v {
        serde_json::Value::Null => Json::Null,
        serde_json::Value::Bool(b) => Json::Bool(*b),
        serde_json::Value::Number(n) => Json::Number(n.to_string()),
        serde_json::Value::String(s) => Json::Str(s.clone()),
        serde_json::Value::Array(a) => Json::Array(a.iter().map(to_doc).collect()),
        serde_json::Value::Object(m) => Json::Object(m.iter().map(|(k, v)| (k.clone(), to_doc(v))).collect()),
    }
}

fn parse_doc(text: &str) -> Json {
    serde_json::from_str::<serde_json::Value>(text).map(|v| to_doc(&v)).unwrap_or(Json::Null)
}

fn parse_entities(text: &str) -> Vec<Json> {
    serde_json::from_str::<Vec<serde_json::Value>>(text).map(|v| v.iter().map(to_doc).collect()).unwrap_or_default()
}

const OPENAPI_FIXTURE: &str = r#"{
  "openapi": "3.0.3",
  "info": { "title": "Test API", "version": "1.0.0" },
  "paths": {
    "/api/jobs": {
      "get": {
        "summary": "List all jobs",
        "tags": ["jobs"],
        "parameters": [ { "name": "limit", "in": "query", "required": false } ],
        "responses": { "200": { "description": "Job list" } }
      }
    },
    "/api/jobs/{slug}": {
      "get": {
        "summary": "Get job by slug",
        "tags": ["jobs"],
        "parameters": [ { "name": "slug", "in": "path", "required": true } ],
        "responses": {
          "200": { "description": "Job details" },
          "404": { "description": "Not found" }
        }
      }
    }
  },
  "components": {
    "schemas": {
      "Job": {
        "type": "object",
        "properties": {
          "slug": { "type": "string", "description": "URL-safe identifier" },
          "company": { "type": "string" },
          "title": { "type": "string" }
        }
      }
    }
  }
}"#;

fn openapi_chunk(path: &str, text: &str) -> Vec<Chunk> {
    openapi::chunk(path, &parse_doc(text))
}

#[test]
fn produces_chunks_for_paths_and_schemas() {
    let chunks = openapi_chunk("api/openapi.json", OPENAPI_FIXTURE);
    assert_eq!(chunks.len(), 3, "2 path ops + 1 schema");
}

#[test]
fn endpoint_chunk_has_correct_meta() {
    let chunks = openapi_chunk("api/openapi.json", OPENAPI_FIXTURE);
    let first = &chunks[0];
    assert!(meta_str(first, "endpoint").unwrap().starts_with("GET"));
    assert_eq!(meta_str(first, "tag").unwrap(), "jobs");
}

#[test]
fn schema_chunk_contains_fields() {
    let chunks = openapi_chunk("api/openapi.json", OPENAPI_FIXTURE);
    let schema_chunk = chunks.iter().find(|c| meta_str(c, "schema").is_some()).unwrap();
    assert!(schema_chunk.content.contains("Schema: Job"));
    assert!(schema_chunk.content.contains("slug"));
}

#[test]
fn empty_paths_returns_empty() {
    let spec = r#"{ "openapi": "3.0.3", "info": { "title": "Empty", "version": "1.0.0" }, "paths": {} }"#;
    let chunks = openapi_chunk("api/openapi.json", spec);
    assert!(chunks.is_empty());
}

#[test]
fn openapi_invalid_json_returns_empty() {
    let chunks = openapi_chunk("bad.json", "not valid json");
    assert!(chunks.is_empty());
}

#[test]
fn oversize_description_is_split() {
    let long_desc = "word ".repeat(1600);
    let spec = format!(
        r#"{{ "openapi": "3.0.3", "info": {{ "title": "Test", "version": "1.0.0" }},
            "paths": {{ "/api/big": {{ "get": {{ "summary": "Big endpoint", "description": "{long_desc}",
            "responses": {{ "200": {{ "description": "ok" }} }} }} }} }} }}"#
    );
    let chunks = openapi_chunk("api/openapi.json", &spec);
    assert!(chunks.len() >= 2, "oversize should split");
    for c in &chunks {
        assert!(c.token_count <= MAX_TOKENS);
    }
}

#[test]
fn operation_prose_is_exact() {
    let chunks = openapi_chunk("api/openapi.json", OPENAPI_FIXTURE);
    assert_eq!(
        chunks[1].content,
        "Endpoint: GET /api/jobs/{slug}\nSummary: Get job by slug\nParameters:\n  - slug (path, required)\nResponses:\n  200: Job details\n  404: Not found"
    );
    assert_eq!(
        chunks[2].content,
        "Schema: Job\nType: object\nFields:\n  company: string\n  slug: string — URL-safe identifier\n  title: string"
    );
    assert_eq!(meta_str(&chunks[2], "path"), Some("api/openapi.json"));
}

#[test]
fn schema_types_follow_arrays_and_refs() {
    let t = |s: &str| openapi::schema_type_str(&parse_doc(s)).into_iter().collect::<String>();
    assert_eq!(t(r#"{"type": "array", "items": {"type": "integer"}}"#), "array<integer>");
    assert_eq!(t(r#"{"type": "array"}"#), "array");
    assert_eq!(t(r##"{"$ref": "#/components/schemas/Job"}"##), "Job");
    assert_eq!(t(r#"{"$ref": "Plain"}"#), "Plain");
    assert_eq!(t(r#"{}"#), "unknown");
}

const JOB_FIXTURE: &str = r#"[{
  "slug": "acme-corp",
  "title": "Senior Engineer",
  "company": "Acme Corp",
  "start_date": "2022-01",
  "end_date": "2024-06",
  "tech_stack": "Rust, AWS, Terraform",
  "summary": "Led platform engineering team",
  "details": [
    { "text": "Designed event-driven architecture on AWS Lambda" },
    { "text": "Reduced deploy time from 15min to 2min" },
    { "text": "Mentored 3 junior engineers" }
  ]
}]"#;

const COMPETENCY_FIXTURE: &str = r#"[{
  "slug": "cloud-infra",
  "name": "Cloud Infrastructure",
  "icon": "cloud",
  "description": "Deep expertise in AWS cloud services",
  "highlights": [
    { "text": "Deployed zero-cost Lambda architecture", "company": "Acme Corp" },
    { "text": "Managed multi-region S3 replication", "company": "Beta Inc" }
  ]
}]"#;

fn portfolio_chunk(path: &str, text: &str) -> Vec<Chunk> {
    portfolio::chunk(path, &parse_entities(text))
}

#[test]
fn job_produces_one_chunk_with_details() {
    let chunks = portfolio_chunk("portfolio/jobs.json", JOB_FIXTURE);
    assert_eq!(chunks.len(), 1);
    assert!(chunks[0].content.contains("Senior Engineer at Acme Corp"));
    assert!(chunks[0].content.contains("event-driven architecture"));
    assert!(chunks[0].content.contains("Reduced deploy time"));
    assert!(chunks[0].content.contains("Mentored 3 junior"));
}

#[test]
fn competency_produces_one_chunk_with_evidence() {
    let chunks = portfolio_chunk("portfolio/competencies.json", COMPETENCY_FIXTURE);
    assert_eq!(chunks.len(), 1);
    assert!(chunks[0].content.contains("Cloud Infrastructure"));
    assert!(chunks[0].content.contains("zero-cost Lambda"));
    assert!(chunks[0].content.contains("(Acme Corp)"));
}

#[test]
fn empty_array_returns_empty() {
    let chunks = portfolio_chunk("portfolio/empty.json", "[]");
    assert!(chunks.is_empty());
}

#[test]
fn portfolio_invalid_json_returns_empty() {
    let chunks = portfolio_chunk("portfolio/bad.json", "not json");
    assert!(chunks.is_empty());
}

#[test]
fn mixed_entities() {
    let data = r#"[
      { "heading": "Bio", "body": "I am a software engineer", "slug": "bio" },
      { "platform": "GitHub", "url": "https://github.com/test" }
    ]"#;
    let chunks = portfolio_chunk("portfolio/mixed.json", data);
    assert_eq!(chunks.len(), 2);
    assert!(chunks[0].content.contains("About — Bio"));
    assert!(chunks[1].content.contains("Social: GitHub"));
}

#[test]
fn job_prose_is_exact() {
    let chunks = portfolio_chunk("portfolio/jobs.json", JOB_FIXTURE);
    assert_eq!(
        chunks[0].content,
        "Job: Senior Engineer at Acme Corp (2022-01–2024-06)\nTech: Rust, AWS, Terraform\nSummary: Led platform engineering team\nAccomplishments:\n- Designed event-driven architecture on AWS Lambda\n- Reduced deploy time from 15min to 2min\n- Mentored 3 junior engineers"
    );
    assert_eq!(meta_str(&chunks[0], "entity_type"), Some("job"));
    assert_eq!(meta_str(&chunks[0], "slug"), Some("acme-corp"));
    assert_eq!(meta_str(&chunks[0], "path"), Some("portfolio/jobs.json"));
}

#[test]
fn unknown_entities_are_skipped_and_defaults_fill_in() {
    let data = r#"[ { "misc": 1 }, { "company": "Solo", "title": "Founder" } ]"#;
    let chunks = portfolio_chunk("p.json", data);
    assert_eq!(chunks.len(), 1);
    assert_eq!(chunks[0].content, "Job: Founder at Solo (?–present)");
    assert_eq!(chunks[0].ord, 0);
}

#[test]
fn chunk_file_dispatches_by_kind() {
    let md = "## One\n\nalpha beta\n\n## Two\n\ngamma\n";
    let by_kind = chunk_file(SourceKind::Plan, "plans/a.md", md, None).unwrap();
    let direct = markdown::chunk("plans/a.md", md);
    assert_eq!(by_kind.len(), direct.len());
    assert_eq!(joined(&by_kind), joined(&direct));
    let rs = "fn a() {\n    1\n}\n\nfn b() {\n    2\n}\n";
    assert_eq!(joined(&chunk_file(SourceKind::Rust, "a.rs", rs, None).unwrap()), joined(&rust::chunk("a.rs", rs)));
    let tf = "resource \"x\" \"y\" {\n  a = 1\n}\n";
    assert_eq!(chunk_file(SourceKind::Hcl, "m.tf", tf, None).unwrap().len(), hcl::chunk("m.tf", tf).len());
    assert!(chunk_file(SourceKind::OpenApi, "api.json", "{}", None).is_none());
    assert!(chunk_file(SourceKind::Portfolio, "p.json", "[]", None).is_none());
}
