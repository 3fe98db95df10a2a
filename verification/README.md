# mcp_rag

A verified library for a Model Context Protocol tool server and the
retrieval pipeline around it, written in Verus.

## Layout

- `src/` — the library. Its executable functions carry contracts that Verus
  proves, except the few small wrappers marked `#[verifier::external_body]`
  that call the regular-expression, glob and date crates or std's case
  mapping and string building: their contracts are trusted, not proved.
  - `mcp/` — JSON-RPC validation and responses, the tool policy (allowed and
    denied paths, tool gating, read-only surface), the tool registry and the
    steps of a call, audit entries and session replay, configuration,
    resources, workspace paths.
  - `tools/` — what each tool computes from what it read: line selection,
    searches, directory listings, compiler and test output summaries,
    environment masking, Markdown/JSON/TOML queries, migrations, SQLite
    query checks, workspace metadata summaries, the tools' input schemas.
  - `rag/` — chunkers per source kind, the hybrid retriever's intent,
    budgets and merge, prompt assembly, answer evaluation.
  - `llm/` — grounded prompts, the agent loop's decisions, the mapping to and
    from a chat-completions API.
  - `portfolio/` — the portfolio server's requests, tool catalogue and
    reports.
  - `json.rs`, `text.rs`, `order.rs`, `pattern.rs` — documents, text
    operations, stable ordering, and the regular-expression and glob calls.
- `tests/` — tests run against the compiled library.
- `app/` — the server program: configuration files, logging, stdin/stdout
  and HTTP transports, file system, processes and databases.

Laws of the library stand in `src/` as public proof functions whose names
begin with `law_` or `lemma_`.
