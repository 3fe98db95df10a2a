//! Retrieval-augmented generation: source chunkers, prompt assembly,
//! retrieval mixing and answer evaluation.

pub mod assembler;
pub mod chunk;
pub mod error;
pub mod eval;
pub mod hybrid;
pub mod types;
