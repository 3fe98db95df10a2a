//! Errors of the retrieval pipeline.
use vstd::prelude::*;
use crate::text::{chars_of, extend_str, string_of};

verus! {

/// Everything that can go wrong in retrieval.
#[derive(Debug)]
pub enum RagError {
    Database(String),
    ChunkSource(String),
    Embedder(String),
    Assembler(String),
    Other(String),
}

/// The text shown for an error.
pub open spec fn rag_error_text(e: RagError) -> Seq<char> {
    match e {
        RagError::Database(m) => "database error: "@ + m@,
        RagError::ChunkSource(m) => "chunk source error: "@ + m@,
        RagError::Embedder(m) => "embedder error: "@ + m@,
        RagError::Assembler(m) => "assembler error: "@ + m@,
        RagError::Other(m) => "rag error: "@ + m@,
    }
}

impl RagError {
    /// The text shown for the error.
    pub fn message(&self) -> (r: String)
        ensures
            r@ == rag_error_text(*self),
    {
        let (prefix, m) = match self {
            RagError::Database(m) => ("database error: ", m),
            RagError::ChunkSource(m) => ("chunk source error: ", m),
            RagError::Embedder(m) => ("embedder error: ", m),
            RagError::Assembler(m) => ("assembler error: ", m),
            RagError::Other(m) => ("rag error: ", m),
        };
        let mut t = chars_of(prefix);
        extend_str(&mut t, m.as_str());
        string_of(t.as_slice())
    }
}

} // verus!
