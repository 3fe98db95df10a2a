//! Data shared across the retrieval pipeline.
use vstd::prelude::*;
use crate::json::Json;

verus! {

/// The kind of source artifact a chunk came from.
#[derive(Debug, Clone, Copy, PartialEq, Eq, Structural)]
pub enum SourceKind {
    Rust,
    Hcl,
    Plan,
    Cache,
    OpenApi,
    Portfolio,
    TypeScript,
}

/// The name of a source kind.
pub open spec fn kind_name(k: SourceKind) -> Seq<char> {
    match k {
        SourceKind::Rust => "rust"@,
        SourceKind::Hcl => "hcl"@,
        SourceKind::Plan => "plan"@,
        SourceKind::Cache => "cache"@,
        SourceKind::OpenApi => "openapi"@,
        SourceKind::Portfolio => "portfolio"@,
        SourceKind::TypeScript => "typescript"@,
    }
}

impl SourceKind {
    /// The kind's name, as stored in the index.
    pub fn as_str(&self) -> (r: &'static str)
        ensures
            r@ == kind_name(*self),
    {
        match self {
            SourceKind::Rust => "rust",
            SourceKind::Hcl => "hcl",
            SourceKind::Plan => "plan",
            SourceKind::Cache => "cache",
            SourceKind::OpenApi => "openapi",
            SourceKind::Portfolio => "portfolio",
            SourceKind::TypeScript => "typescript",
        }
    }
}

/// A single indexable unit extracted from a source artifact.
#[derive(Debug)]
pub struct Chunk {
    /// Position within the source file, from 0.
    pub ord: usize,
    /// The text of the chunk.
    pub content: String,
    /// Word count of the content.
    pub token_count: usize,
    /// Metadata such as the path and the heading.
    pub meta: Json,
}

/// A chunk retrieved from the index, with its rank score.
#[derive(Debug)]
pub struct RankedChunk {
    pub chunk_id: i64,
    pub document_id: i64,
    pub source_kind: String,
    pub source_path: String,
    pub git_sha: String,
    pub ord: i64,
    pub content: String,
    /// The IEEE 754 bits of the combined rank score (higher is more
    /// relevant); carried through, never computed on here.
    pub score_bits: u64,
}

impl RankedChunk {
    /// The chunk's fields as plain values.
    pub open spec fn fields(self) -> (i64, i64, Seq<char>, Seq<char>, Seq<char>, i64, Seq<char>, u64) {
        (
            self.chunk_id,
            self.document_id,
            self.source_kind@,
            self.source_path@,
            self.git_sha@,
            self.ord,
            self.content@,
            self.score_bits,
        )
    }

    /// A copy with the same fields.
    pub fn duplicate(&self) -> (r: RankedChunk)
        ensures
            r.fields() == self.fields(),
    {
        RankedChunk {
            chunk_id: self.chunk_id,
            document_id: self.document_id,
            source_kind: self.source_kind.clone(),
            source_path: self.source_path.clone(),
            git_sha: self.git_sha.clone(),
            ord: self.ord,
            content: self.content.clone(),
            score_bits: self.score_bits,
        }
    }
}

/// The fields of each chunk.
pub open spec fn fields_of(v: Seq<RankedChunk>) -> Seq<(i64, i64, Seq<char>, Seq<char>, Seq<char>, i64, Seq<char>, u64)> {
    v.map_values(|c: RankedChunk| c.fields())
}

/// A grounded prompt ready to be sent to a model.
#[derive(Debug)]
pub struct PromptBundle {
    pub system_prompt: String,
    pub user_message: String,
    pub citations: Vec<CitationRef>,
}

/// Reference to a source chunk included in a prompt.
#[derive(Debug)]
pub struct CitationRef {
    pub kind: String,
    pub path: String,
    pub sha: String,
    pub ord: i64,
}

} // verus!
