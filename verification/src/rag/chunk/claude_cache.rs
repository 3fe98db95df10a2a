//! Agent cache chunker: markdown files by section, JSON objects and arrays
//! one chunk per member or element, anything else by sliding window.
use vstd::prelude::*;
use crate::json::Json;
use crate::rag::chunk::markdown;
use crate::rag::chunk::window::{chunk_is, emit_windows, pairs, path_base, window_pieces};
use crate::rag::types::Chunk;
use crate::text::{
    chars_of, dec, decimal, ends_with, ends_with_str, extend, extend_str, string_of, views, words,
    words_of,
};

verus! {

/// The top-level parts of a JSON document, each written out as pretty JSON.
#[derive(Debug)]
pub enum JsonParts {
    /// An object's members in key order: key and pretty value.
    Members(Vec<(String, String)>),
    /// An array's elements in order, pretty.
    Elements(Vec<String>),
}

/// The content of a member's chunk.
pub open spec fn member_text(key: Seq<char>, pretty: Seq<char>) -> Seq<char> {
    key + ": "@ + pretty
}

/// `c` is chunk `ord` for a JSON member or element with text `text` and
/// metadata `path` plus either `key` or `index`.
pub open spec fn json_chunk_is(c: Chunk, ord: int, text: Seq<char>, path: Seq<char>, key: Option<Seq<char>>) -> bool {
    &&& c.ord == ord
    &&& c.content@ == text
    &&& c.token_count == words_of(text).len()
    &&& c.meta matches Json::Object(es) && es@.len() == 2 && es@[0].0@ == "path"@ && (es@[0].1 matches Json::Str(p) && p@ == path) && match key {
        Some(k) => es@[1].0@ == "key"@ && (es@[1].1 matches Json::Str(v) && v@ == k),
        None => es@[1].0@ == "index"@ && (es@[1].1 matches Json::Number(v) && v@ == dec(ord as nat)),
    }
}

/// One chunk per member of a JSON object or element of an array.
pub fn chunk_json(path: &str, parts: &JsonParts) -> (r: Vec<Chunk>)
    ensures
        match parts {
            JsonParts::Members(ms) => r@.len() == ms@.len() && forall|j: int|
                0 <= j < ms@.len() ==> json_chunk_is(
                    #[trigger] r@[j],
                    j,
                    member_text(ms@[j].0@, ms@[j].1@),
                    path@,
                    Some(ms@[j].0@),
                ),
            JsonParts::Elements(es) => r@.len() == es@.len() && forall|j: int|
                0 <= j < es@.len() ==> json_chunk_is(#[trigger] r@[j], j, es@[j]@, path@, None),
        },
{
    let mut out: Vec<Chunk> = Vec::new();
    match parts {
        JsonParts::Members(ms) => {
            let mut i: usize = 0;
            while i < ms.len()
                invariant
                    i <= ms@.len(),
                    out@.len() == i,
                    forall|j: int|
                        0 <= j < i ==> json_chunk_is(
                            #[trigger] out@[j],
                            j,
                            member_text(ms@[j].0@, ms@[j].1@),
                            path@,
                            Some(ms@[j].0@),
                        ),
                decreases ms@.len() - i,
            {
                let mut t = chars_of(ms[i].0.as_str());
                extend_str(&mut t, ": ");
                extend(&mut t, chars_of(ms[i].1.as_str()).as_slice());
                let n = words(t.as_slice()).len();
                let mut es: Vec<(String, Json)> = Vec::new();
                es.push((string_of(chars_of("path").as_slice()), Json::Str(string_of(chars_of(path).as_slice()))));
                es.push((string_of(chars_of("key").as_slice()), Json::Str(ms[i].0.clone())));
                out.push(Chunk { ord: i, content: string_of(t.as_slice()), token_count: n, meta: Json::Object(es) });
                i = i + 1;
            }
        },
        JsonParts::Elements(els) => {
            let mut i: usize = 0;
            while i < els.len()
                invariant
                    i <= els@.len(),
                    out@.len() == i,
                    forall|j: int|
                        0 <= j < i ==> json_chunk_is(#[trigger] out@[j], j, els@[j]@, path@, None),
                decreases els@.len() - i,
            {
                let t = chars_of(els[i].as_str());
                let n = words(t.as_slice()).len();
                let mut es: Vec<(String, Json)> = Vec::new();
                es.push((string_of(chars_of("path").as_slice()), Json::Str(string_of(chars_of(path).as_slice()))));
                es.push((string_of(chars_of("index").as_slice()), Json::Number(string_of(decimal(i as u64).as_slice()))));
                out.push(Chunk { ord: i, content: string_of(t.as_slice()), token_count: n, meta: Json::Object(es) });
                i = i + 1;
            }
        },
    }
    out
}

/// Sliding-window chunks over all the words of `content`, every chunk a
/// window, numbered from 0.
pub fn chunk_plain(path: &str, content: &str) -> (r: Vec<Chunk>)
    requires
        window_pieces(words_of(content@)).len() <= usize::MAX,
    ensures
        r@.len() == window_pieces(words_of(content@)).len(),
        forall|j: int|
            0 <= j < r@.len() ==> chunk_is(
                #[trigger] r@[j],
                j,
                window_pieces(words_of(content@))[j],
                seq![("path"@, path@)],
            ),
{
    let ws = words(chars_of(content).as_slice());
    let base = path_base(path);
    let mut chunks: Vec<Chunk> = Vec::new();
    let mut ord: usize = 0;
    emit_windows(&ws, &base, &mut ord, &mut chunks);
    proof {
        assert forall|j: int| 0 <= j < chunks@.len() implies chunk_is(
            #[trigger] chunks@[j],
            j,
            window_pieces(words_of(content@))[j],
            seq![("path"@, path@)],
        ) by {
            assert(chunks@[0 + j] == chunks@[j]);
        }
    }
    chunks
}

/// Chunk a cache file by its extension: `.md` by section, `.json` by
/// member or element when `parts` holds the document's top-level parts
/// (`None` when it is not a JSON object or array), else by sliding window.
pub fn chunk(path: &str, content: &str, parts: Option<&JsonParts>) -> (r: Vec<Chunk>)
    requires
        markdown::all_pieces(markdown::sections_of(content@)).len() <= usize::MAX,
        window_pieces(words_of(content@)).len() <= usize::MAX,
    ensures
        ends_with(path@, ".md"@) ==> r@.len() == markdown::all_pieces(markdown::sections_of(content@)).len(),
        !ends_with(path@, ".md"@) && !(ends_with(path@, ".json"@) && parts is Some) ==> r@.len()
            == window_pieces(words_of(content@)).len(),
        !ends_with(path@, ".md"@) && ends_with(path@, ".json"@) && parts is Some ==> r@.len()
            == match parts.unwrap() {
            JsonParts::Members(ms) => ms@.len(),
            JsonParts::Elements(es) => es@.len(),
        },
{
    let pc = chars_of(path);
    if ends_with_str(pc.as_slice(), ".md") {
        return markdown::chunk(path, content);
    }
    if ends_with_str(pc.as_slice(), ".json") {
        if let Some(p) = parts {
            return chunk_json(path, p);
        }
    }
    chunk_plain(path, content)
}

} // verus!
