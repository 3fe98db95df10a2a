//! Verified core of a developer-tooling server and retrieval pipeline:
//! access policy, configuration rules, source chunkers, prompt assembly,
//! retrieval mixing and the text parsers behind the tool surface.

pub mod json;
pub mod llm;
pub mod mcp;
pub mod order;
pub mod pattern;
pub mod portfolio;
pub mod rag;
pub mod text;
pub mod tools;
