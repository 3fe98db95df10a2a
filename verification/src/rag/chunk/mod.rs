//! Per-corpus chunkers. Every chunker numbers its chunks from 0 upwards,
//! counts a chunk's tokens as its whitespace-separated words, and cuts a
//! text of more than 800 words into overlapping windows of at most 800.

pub mod claude_cache;
pub mod hcl;
pub mod markdown;
pub mod openapi;
pub mod portfolio;
pub mod python;
pub mod rust;
pub mod typescript;
pub mod window;

use vstd::prelude::*;
use crate::rag::chunk::claude_cache::JsonParts;
use crate::rag::chunk::window::{chunk_is, flat_pieces, window_pieces};
use crate::rag::types::{Chunk, SourceKind};
use crate::text::{ends_with, lines_of, words_of};

verus! {

/// What the chunker for `kind` needs of `content` to run to its end.
pub open spec fn chunkable(kind: SourceKind, content: Seq<char>) -> bool {
    match kind {
        SourceKind::Rust => rust::item_acc(lines_of(content)).4 && flat_pieces(rust::item_texts(content)).len()
            <= usize::MAX,
        SourceKind::Hcl => hcl::hcl_acc(lines_of(content)).4 && flat_pieces(hcl::block_texts(content)).len()
            <= usize::MAX,
        SourceKind::Plan => markdown::all_pieces(markdown::sections_of(content)).len() <= usize::MAX,
        SourceKind::Cache => markdown::all_pieces(markdown::sections_of(content)).len() <= usize::MAX
            && window_pieces(words_of(content)).len() <= usize::MAX,
        SourceKind::TypeScript => typescript::item_acc(lines_of(content)).4 && flat_pieces(
            typescript::item_texts(content),
        ).len() <= usize::MAX,
        _ => true,
    }
}

/// `r` are the chunks of a text split into `texts` pieces, each under the
/// file's path.
pub open spec fn chunks_of_texts(r: Seq<Chunk>, path: Seq<char>, texts: Seq<Seq<char>>) -> bool {
    &&& r.len() == flat_pieces(texts).len()
    &&& forall|j: int|
        0 <= j < r.len() ==> chunk_is(#[trigger] r[j], j, flat_pieces(texts)[j], seq![("path"@, path)])
}

/// Chunk the text of a file with the chunker of its kind: Rust items,
/// HCL blocks, plan sections, agent cache entries (`parts` holds the
/// members or elements of a cache file parsed as JSON), TypeScript items.
/// `None` for the kinds whose sources are chunked from parsed documents
/// (OpenAPI specifications and portfolio entities).
pub fn chunk_file(kind: SourceKind, path: &str, content: &str, parts: Option<&JsonParts>) -> (r: Option<Vec<Chunk>>)
    requires
        chunkable(kind, content@),
    ensures
        match kind {
            SourceKind::Rust => r matches Some(cs) && chunks_of_texts(cs@, path@, rust::item_texts(content@)),
            SourceKind::Hcl => r matches Some(cs) && chunks_of_texts(cs@, path@, hcl::block_texts(content@)),
            SourceKind::TypeScript => r matches Some(cs) && chunks_of_texts(
                cs@,
                path@,
                typescript::item_texts(content@),
            ),
            SourceKind::Plan => r matches Some(cs) && cs@.len() == markdown::all_pieces(
                markdown::sections_of(content@),
            ).len() && forall|j: int|
                0 <= j < cs@.len() ==> {
                    let p = #[trigger] markdown::all_pieces(markdown::sections_of(content@))[j];
                    chunk_is(cs@[j], j, p.0, markdown::md_base(path@, p.1))
                },
            SourceKind::Cache => r matches Some(cs) && (ends_with(path@, ".md"@) ==> cs@.len()
                == markdown::all_pieces(markdown::sections_of(content@)).len()) && (!ends_with(path@, ".md"@)
                && !(ends_with(path@, ".json"@) && parts is Some) ==> cs@.len() == window_pieces(
                words_of(content@),
            ).len()) && (!ends_with(path@, ".md"@) && ends_with(path@, ".json"@) && parts is Some
                ==> cs@.len() == match parts.unwrap() {
                JsonParts::Members(ms) => ms@.len(),
                JsonParts::Elements(es) => es@.len(),
            }),
            _ => r is None,
        },
{
    match kind {
        SourceKind::Rust => Some(rust::chunk(path, content)),
        SourceKind::Hcl => Some(hcl::chunk(path, content)),
        SourceKind::Plan => Some(markdown::chunk(path, content)),
        SourceKind::Cache => Some(claude_cache::chunk(path, content, parts)),
        SourceKind::TypeScript => Some(typescript::chunk(path, content)),
        _ => None,
    }
}

} // verus!
