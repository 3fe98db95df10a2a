//! Cutting a text into chunks: whole when it has at most 800 words, else
//! into windows of 800 words that start 750 words apart.
use vstd::prelude::*;
use crate::json::Json;
use crate::rag::types::Chunk;
use crate::text::{
    chars_of, copy_range, dec, decimal, join, join_with, plain_words, string_of, views, words,
    words_of,
};

verus! {

/// Most words in one chunk.
pub const MAX_TOKENS: usize = 800;

/// Words shared by neighbouring windows.
pub const OVERLAP_WORDS: usize = 50;

/// The windows `(start, end)` over `n` words from `start` on.
pub open spec fn windows(n: int, start: int) -> Seq<(int, int)>
    decreases n - start,
{
    if start < 0 || start >= n {
        seq![]
    } else {
        let end = if start + 800 < n {
            start + 800
        } else {
            n
        };
        if end == n {
            seq![(start, end)]
        } else {
            seq![(start, end)] + windows(n, start + 750)
        }
    }
}

/// The pieces a text is cut into: content, word count and, for a window,
/// the index of its first word.
pub open spec fn pieces_of(text: Seq<char>) -> Seq<(Seq<char>, nat, Option<nat>)> {
    let ws = words_of(text);
    if ws.len() == 0 {
        seq![]
    } else if ws.len() <= 800 {
        seq![(text, ws.len(), None)]
    } else {
        window_pieces(ws)
    }
}

/// The windows over the words `ws`, each joined with single spaces.
pub open spec fn window_pieces(ws: Seq<Seq<char>>) -> Seq<(Seq<char>, nat, Option<nat>)> {
    windows(ws.len() as int, 0).map_values(
        |w: (int, int)| (join(ws.subrange(w.0, w.1), " "@), (w.1 - w.0) as nat, Some(w.0 as nat)),
    )
}

/// The characters of string pairs.
pub open spec fn pairs(v: Seq<(String, String)>) -> Seq<(Seq<char>, Seq<char>)> {
    v.map_values(|p: (String, String)| (p.0@, p.1@))
}

/// `meta` is an object holding the string members `base` followed, for a
/// window, by `window_start`.
pub open spec fn meta_is(meta: Json, base: Seq<(Seq<char>, Seq<char>)>, window: Option<nat>) -> bool {
    match meta {
        Json::Object(es) => {
            &&& es@.len() == base.len() + if window is Some {
                1int
            } else {
                0int
            }
            &&& forall|k: int|
                0 <= k < base.len() ==> (#[trigger] es@[k]).0@ == base[k].0 && (es@[k].1 matches Json::Str(v) && v@ == base[k].1)
            &&& match window {
                Some(s) => es@[base.len() as int].0@ == "window_start"@ && (es@[
                    base.len() as int
                ].1 matches Json::Number(n) && n@ == dec(s)),
                None => true,
            }
        },
        _ => false,
    }
}

/// `c` is the chunk numbered `ord` made from `piece` with base metadata `base`.
pub open spec fn chunk_is(c: Chunk, ord: int, piece: (Seq<char>, nat, Option<nat>), base: Seq<(Seq<char>, Seq<char>)>) -> bool {
    &&& c.ord == ord
    &&& c.content@ == piece.0
    &&& c.token_count == piece.1
    &&& meta_is(c.meta, base, piece.2)
}

proof fn lemma_windows(n: int, start: int)
    requires
        0 <= start < n,
    ensures
        windows(n, start).len() >= 1,
        forall|j: int|
            0 <= j < windows(n, start).len() ==> {
                let w = #[trigger] windows(n, start)[j];
                start <= w.0 < w.1 <= n && w.1 - w.0 <= 800
            },
    decreases n - start,
{
    let end = if start + 800 < n {
        start + 800
    } else {
        n
    };
    if end != n {
        lemma_windows(n, start + 750);
        let rest = windows(n, start + 750);
        assert forall|j: int| 0 <= j < windows(n, start).len() implies {
            let w = #[trigger] windows(n, start)[j];
            start <= w.0 < w.1 <= n && w.1 - w.0 <= 800
        } by {
            if j > 0 {
                assert(windows(n, start)[j] == rest[j - 1]);
            }
        }
    }
}

/// Each piece has at most 800 words, and its word count is the number of
/// words of its content.
pub proof fn lemma_pieces(text: Seq<char>)
    ensures
        forall|j: int|
            0 <= j < pieces_of(text).len() ==> {
                let p = #[trigger] pieces_of(text)[j];
                p.1 <= 800 && p.1 == words_of(p.0).len() && p.1 > 0
            },
{
    let ws = words_of(text);
    crate::text::lemma_words_plain(seq![], text);
    if ws.len() > 800 {
        lemma_windows(ws.len() as int, 0);
        assert forall|j: int| 0 <= j < pieces_of(text).len() implies {
            let p = #[trigger] pieces_of(text)[j];
            p.1 <= 800 && p.1 == words_of(p.0).len() && p.1 > 0
        } by {
            let w = windows(ws.len() as int, 0)[j];
            let sub = ws.subrange(w.0, w.1);
            assert(plain_words(sub)) by {
                assert forall|i: int| 0 <= i < sub.len() implies (#[trigger] sub[i]).len() > 0
                    && crate::text::no_ws(sub[i]) by {
                    assert(sub[i] == ws[w.0 + i]);
                }
            }
            crate::text::lemma_words_of_join(sub);
        }
    }
}

/// Cut `text` into chunks numbered from `*ord` on, each with the members
/// of `base` as metadata (and `window_start` for a window), append them to
/// `chunks` and advance `*ord` past them.
pub fn emit_chunks(text: &[char], base: &Vec<(String, String)>, ord: &mut usize, chunks: &mut Vec<Chunk>)
    requires
        *old(ord) + pieces_of(text@).len() <= usize::MAX,
    ensures
        *final(ord) == *old(ord) + pieces_of(text@).len(),
        final(chunks)@.len() == old(chunks)@.len() + pieces_of(text@).len(),
        forall|k: int| 0 <= k < old(chunks)@.len() ==> final(chunks)@[k] == old(chunks)@[k],
        forall|j: int|
            0 <= j < pieces_of(text@).len() ==> chunk_is(
                #[trigger] final(chunks)@[old(chunks)@.len() + j],
                *old(ord) + j,
                pieces_of(text@)[j],
                pairs(base@),
            ),
{
    let ws = words(text);
    let n = ws.len();
    if n == 0 {
        return;
    }
    if n <= MAX_TOKENS {
        let meta = Json::Object(copy_entries(base));
        chunks.push(Chunk { ord: *ord, content: string_of(text), token_count: n, meta });
        *ord = *ord + 1;
        return;
    }
    emit_windows(&ws, base, ord, chunks);
}

/// Cut the words `ws` into windows of at most 800 words starting 750
/// apart, each joined with single spaces, as chunks numbered from `*ord`
/// on with the members of `base` and `window_start` as metadata.
pub fn emit_windows(ws: &Vec<Vec<char>>, base: &Vec<(String, String)>, ord: &mut usize, chunks: &mut Vec<Chunk>)
    requires
        *old(ord) + window_pieces(views(ws@)).len() <= usize::MAX,
    ensures
        *final(ord) == *old(ord) + window_pieces(views(ws@)).len(),
        final(chunks)@.len() == old(chunks)@.len() + window_pieces(views(ws@)).len(),
        forall|k: int| 0 <= k < old(chunks)@.len() ==> final(chunks)@[k] == old(chunks)@[k],
        forall|j: int|
            0 <= j < window_pieces(views(ws@)).len() ==> chunk_is(
                #[trigger] final(chunks)@[old(chunks)@.len() + j],
                *old(ord) + j,
                window_pieces(views(ws@))[j],
                pairs(base@),
            ),
{
    let n = ws.len();
    if n == 0 {
        return;
    }
    let ghost ws_v = views(ws@);
    let ghost all = windows(n as int, 0);
    let ghost c0 = old(chunks)@.len();
    let ghost o0 = *old(ord);
    let sep = chars_of(" ");
    let mut start: usize = 0;
    let mut done: usize = 0;
    proof {
        lemma_windows(n as int, 0);
    }
    loop
        invariant_except_break
            ws_v == views(ws@),
            n == ws@.len(),
            all == windows(n as int, 0),
            sep@ == " "@,
            0 <= start < n,
            done < all.len(),
            all.skip(done as int) == windows(n as int, start as int),
            *ord == o0 + done,
            o0 + all.len() <= usize::MAX,
            chunks@.len() == c0 + done,
            forall|k: int| 0 <= k < c0 ==> chunks@[k] == old(chunks)@[k],
            forall|j: int|
                0 <= j < done ==> chunk_is(
                    #[trigger] chunks@[c0 + j],
                    o0 + j,
                    window_pieces(ws_v)[j],
                    pairs(base@),
                ),
        ensures
            *ord == o0 + all.len(),
            chunks@.len() == c0 + all.len(),
            forall|k: int| 0 <= k < c0 ==> chunks@[k] == old(chunks)@[k],
            forall|j: int|
                0 <= j < all.len() ==> chunk_is(
                    #[trigger] chunks@[c0 + j],
                    o0 + j,
                    window_pieces(ws_v)[j],
                    pairs(base@),
                ),
        decreases n - start,
    {
        let end = if n - start > MAX_TOKENS {
            start + MAX_TOKENS
        } else {
            n
        };
        proof {
            assert(all[done as int] == all.skip(done as int)[0]);
            assert(all[done as int] == (start as int, end as int));
            lemma_windows(n as int, start as int);
        }
        let part = copy_range(&ws, start, end);
        let content = join_with(part.as_slice(), sep.as_slice());
        let mut entries = copy_entries(base);
        let ghost before = entries@;
        entries.push((string_of(chars_of("window_start").as_slice()), Json::Number(string_of(decimal(start as u64).as_slice()))));
        proof {
            reveal_strlit("window_start");
        }
        let c = Chunk { ord: *ord, content: string_of(content.as_slice()), token_count: end - start, meta: Json::Object(entries) };
        proof {
            assert(views(part@) == ws_v.subrange(start as int, end as int));
            assert(window_pieces(ws_v)[done as int] == (join(ws_v.subrange(start as int, end as int), " "@), (end - start) as nat, Some(start as nat)));
            assert(entries@[base@.len() as int] == before.push(entries@[base@.len() as int])[base@.len() as int]);
        }
        chunks.push(c);
        *ord = *ord + 1;
        done = done + 1;
        if end == n {
            proof {
                assert(all.skip(done - 1) =~= seq![(start as int, end as int)]);
                assert(all.len() == done);
            }
            break;
        }
        proof {
            assert(windows(n as int, start as int) =~= seq![(start as int, end as int)] + windows(n as int, start + 750));
            assert(all.skip(done as int) =~= all.skip(done - 1).skip(1));
            assert(all.skip(done as int) =~= windows(n as int, start + 750));
            lemma_windows(n as int, start + 750);
        }
        start = start + (MAX_TOKENS - OVERLAP_WORDS);
    }
}

/// Metadata members holding the string pairs of `base`.
pub fn copy_entries(base: &Vec<(String, String)>) -> (r: Vec<(String, Json)>)
    ensures
        r@.len() == base@.len(),
        forall|k: int|
            0 <= k < base@.len() ==> (#[trigger] r@[k]).0@ == base@[k].0@ && (r@[k].1 matches Json::Str(v)
                && v@ == base@[k].1@),
{
    let mut out: Vec<(String, Json)> = Vec::new();
    let mut i: usize = 0;
    while i < base.len()
        invariant
            i <= base@.len(),
            out@.len() == i,
            forall|k: int|
                0 <= k < i ==> (#[trigger] out@[k]).0@ == base@[k].0@ && (out@[k].1 matches Json::Str(v)
                    && v@ == base@[k].1@),
        decreases base@.len() - i,
    {
        out.push((base[i].0.clone(), Json::Str(base[i].1.clone())));
        i = i + 1;
    }
    out
}

/// The pieces of each text in turn.
pub open spec fn flat_pieces(texts: Seq<Seq<char>>) -> Seq<(Seq<char>, nat, Option<nat>)>
    decreases texts.len(),
{
    if texts.len() == 0 {
        seq![]
    } else {
        flat_pieces(texts.drop_last()) + pieces_of(texts.last())
    }
}

proof fn lemma_flat_prefix(texts: Seq<Seq<char>>, k: int)
    requires
        0 <= k <= texts.len(),
    ensures
        flat_pieces(texts.take(k)).len() <= flat_pieces(texts).len(),
    decreases texts.len() - k,
{
    if k < texts.len() {
        lemma_flat_prefix(texts, k + 1);
        assert(texts.take(k + 1).drop_last() =~= texts.take(k));
    } else {
        assert(texts.take(k) =~= texts);
    }
}

/// Chunks of each text in turn, numbered from 0, all with metadata `base`.
pub fn emit_texts(texts: &Vec<Vec<char>>, base: &Vec<(String, String)>) -> (r: Vec<Chunk>)
    requires
        flat_pieces(views(texts@)).len() <= usize::MAX,
    ensures
        r@.len() == flat_pieces(views(texts@)).len(),
        forall|j: int|
            0 <= j < r@.len() ==> chunk_is(
                #[trigger] r@[j],
                j,
                flat_pieces(views(texts@))[j],
                pairs(base@),
            ),
{
    let ghost tv = views(texts@);
    let mut chunks: Vec<Chunk> = Vec::new();
    let mut ord: usize = 0;
    let mut k: usize = 0;
    while k < texts.len()
        invariant
            k <= texts@.len(),
            tv == views(texts@),
            flat_pieces(tv).len() <= usize::MAX,
            ord == flat_pieces(tv.take(k as int)).len(),
            chunks@.len() == ord,
            forall|j: int|
                0 <= j < chunks@.len() ==> chunk_is(
                    #[trigger] chunks@[j],
                    j,
                    flat_pieces(tv.take(k as int))[j],
                    pairs(base@),
                ),
        decreases texts@.len() - k,
    {
        proof {
            assert(tv.take(k + 1).drop_last() =~= tv.take(k as int));
            assert(tv.take(k + 1).last() == texts@[k as int]@);
            lemma_flat_prefix(tv, k + 1);
        }
        let ghost c_before = chunks@;
        let ghost o_before = ord;
        emit_chunks(texts[k].as_slice(), base, &mut ord, &mut chunks);
        proof {
            let prev = flat_pieces(tv.take(k as int));
            let now = flat_pieces(tv.take(k + 1));
            let ps = pieces_of(texts@[k as int]@);
            assert(now =~= prev + ps);
            assert forall|j: int| 0 <= j < chunks@.len() implies chunk_is(
                #[trigger] chunks@[j],
                j,
                now[j],
                pairs(base@),
            ) by {
                if j < prev.len() {
                    assert(chunks@[j] == c_before[j]);
                } else {
                    assert(chunks@[o_before + (j - prev.len())] == chunks@[j]);
                }
            }
        }
        k = k + 1;
    }
    proof {
        assert(tv.take(k as int) =~= tv);
    }
    chunks
}

/// The pieces of each text in turn, each with the metadata members of its
/// text.
pub open spec fn entry_pieces(es: Seq<(Seq<char>, Seq<(Seq<char>, Seq<char>)>)>) -> Seq<
    ((Seq<char>, nat, Option<nat>), Seq<(Seq<char>, Seq<char>)>),
>
    decreases es.len(),
{
    if es.len() == 0 {
        seq![]
    } else {
        let e = es.last();
        entry_pieces(es.drop_last()) + pieces_of(e.0).map_values(|p: (Seq<char>, nat, Option<nat>)| (p, e.1))
    }
}

/// Texts paired with their metadata members.
pub open spec fn entries_view(texts: Seq<Vec<char>>, bases: Seq<Vec<(String, String)>>) -> Seq<
    (Seq<char>, Seq<(Seq<char>, Seq<char>)>),
> {
    Seq::new(texts.len(), |i: int| (texts[i]@, pairs(bases[i]@)))
}

proof fn lemma_entry_prefix(es: Seq<(Seq<char>, Seq<(Seq<char>, Seq<char>)>)>, k: int)
    requires
        0 <= k <= es.len(),
    ensures
        entry_pieces(es.take(k)).len() <= entry_pieces(es).len(),
    decreases es.len() - k,
{
    if k < es.len() {
        lemma_entry_prefix(es, k + 1);
        assert(es.take(k + 1).drop_last() =~= es.take(k));
    } else {
        assert(es.take(k) =~= es);
    }
}

/// Chunks of each text in turn, numbered from 0, each with the metadata
/// members given for its text.
pub fn emit_entries(texts: &Vec<Vec<char>>, bases: &Vec<Vec<(String, String)>>) -> (r: Vec<Chunk>)
    requires
        texts@.len() == bases@.len(),
        entry_pieces(entries_view(texts@, bases@)).len() <= usize::MAX,
    ensures
        r@.len() == entry_pieces(entries_view(texts@, bases@)).len(),
        forall|j: int|
            0 <= j < r@.len() ==> {
                let p = #[trigger] entry_pieces(entries_view(texts@, bases@))[j];
                chunk_is(r@[j], j, p.0, p.1)
            },
{
    let ghost es = entries_view(texts@, bases@);
    let mut chunks: Vec<Chunk> = Vec::new();
    let mut ord: usize = 0;
    let mut k: usize = 0;
    while k < texts.len()
        invariant
            k <= texts@.len(),
            texts@.len() == bases@.len(),
            es == entries_view(texts@, bases@),
            entry_pieces(es).len() <= usize::MAX,
            ord == entry_pieces(es.take(k as int)).len(),
            chunks@.len() == ord,
            forall|j: int|
                0 <= j < chunks@.len() ==> {
                    let p = #[trigger] entry_pieces(es.take(k as int))[j];
                    chunk_is(chunks@[j], j, p.0, p.1)
                },
        decreases texts@.len() - k,
    {
        proof {
            assert(es.take(k + 1).drop_last() =~= es.take(k as int));
            assert(es.take(k + 1).last() == (texts@[k as int]@, pairs(bases@[k as int]@)));
            lemma_entry_prefix(es, k + 1);
        }
        let ghost c_before = chunks@;
        let ghost o_before = ord;
        emit_chunks(texts[k].as_slice(), &bases[k], &mut ord, &mut chunks);
        proof {
            let prev = entry_pieces(es.take(k as int));
            let now = entry_pieces(es.take(k + 1));
            let ps = pieces_of(texts@[k as int]@);
            let b = pairs(bases@[k as int]@);
            assert(now =~= prev + ps.map_values(|p: (Seq<char>, nat, Option<nat>)| (p, b)));
            assert forall|j: int| 0 <= j < chunks@.len() implies {
                let p = #[trigger] now[j];
                chunk_is(chunks@[j], j, p.0, p.1)
            } by {
                if j < prev.len() {
                    assert(chunks@[j] == c_before[j]);
                } else {
                    assert(chunks@[o_before + (j - prev.len())] == chunks@[j]);
                }
            }
        }
        k = k + 1;
    }
    proof {
        assert(es.take(k as int) =~= es);
    }
    chunks
}

/// The single metadata member `path`.
pub fn path_base(path: &str) -> (r: Vec<(String, String)>)
    ensures
        pairs(r@) == seq![("path"@, path@)],
{
    let mut base: Vec<(String, String)> = Vec::new();
    base.push((string_of(chars_of("path").as_slice()), string_of(chars_of(path).as_slice())));
    proof {
        assert(pairs(base@) =~= seq![("path"@, path@)]);
    }
    base
}

/// Law of every chunker: each piece has at most 800 words, at least one,
/// and its token count is the number of words of its content.
pub proof fn law_pieces_bounded(texts: Seq<Seq<char>>)
    ensures
        forall|j: int|
            0 <= j < flat_pieces(texts).len() ==> {
                let p = #[trigger] flat_pieces(texts)[j];
                0 < p.1 <= 800 && p.1 == words_of(p.0).len()
            },
    decreases texts.len(),
{
    if texts.len() > 0 {
        law_pieces_bounded(texts.drop_last());
        lemma_pieces(texts.last());
        let a = flat_pieces(texts.drop_last());
        let b = pieces_of(texts.last());
        assert forall|j: int| 0 <= j < flat_pieces(texts).len() implies {
            let p = #[trigger] flat_pieces(texts)[j];
            0 < p.1 <= 800 && p.1 == words_of(p.0).len()
        } by {
            if j < a.len() {
                assert(flat_pieces(texts)[j] == a[j]);
            } else {
                assert(flat_pieces(texts)[j] == b[j - a.len()]);
            }
        }
    }
}

/// Law of the sliding window: every window has at most 800 words, at least
/// one, and its token count is the number of words of its content.
pub proof fn law_windows_bounded(ws: Seq<Seq<char>>)
    requires
        plain_words(ws),
    ensures
        forall|j: int|
            0 <= j < window_pieces(ws).len() ==> {
                let p = #[trigger] window_pieces(ws)[j];
                0 < p.1 <= 800 && p.1 == words_of(p.0).len()
            },
{
    if ws.len() > 0 {
        lemma_windows(ws.len() as int, 0);
        assert forall|j: int| 0 <= j < window_pieces(ws).len() implies {
            let p = #[trigger] window_pieces(ws)[j];
            0 < p.1 <= 800 && p.1 == words_of(p.0).len()
        } by {
            let w = windows(ws.len() as int, 0)[j];
            let sub = ws.subrange(w.0, w.1);
            assert(plain_words(sub)) by {
                assert forall|i: int| 0 <= i < sub.len() implies (#[trigger] sub[i]).len() > 0
                    && crate::text::no_ws(sub[i]) by {
                    assert(sub[i] == ws[w.0 + i]);
                }
            }
            crate::text::lemma_words_of_join(sub);
        }
    }
}

} // verus!
