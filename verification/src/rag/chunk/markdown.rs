//! Markdown chunker: one chunk per `##` or `###` section, the text before
//! the first such heading forming its own section.
use vstd::prelude::*;
use crate::rag::chunk::window::{chunk_is, emit_chunks, pairs, pieces_of};
use crate::rag::types::Chunk;
use crate::text::{
    chars_of, extend, extend_str, join, join_with, lines, lines_of, starts_with,
    starts_with_str, string_of, trim, trim_of, views,
};

verus! {

/// A line that opens a section.
pub open spec fn section_heading(l: Seq<char>) -> bool {
    starts_with(l, "## "@) || starts_with(l, "### "@)
}

/// Sections closed so far (heading and body), and the open section's
/// heading and body lines.
pub open spec fn sections_acc(ls: Seq<Seq<char>>) -> (Seq<(Seq<char>, Seq<char>)>, Seq<char>, Seq<Seq<char>>)
    decreases ls.len(),
{
    if ls.len() == 0 {
        (seq![], seq![], seq![])
    } else {
        let a = sections_acc(ls.drop_last());
        let l = ls.last();
        if section_heading(l) {
            let d = if a.2.len() > 0 || a.1.len() > 0 {
                a.0.push((a.1, join(a.2, "\n"@)))
            } else {
                a.0
            };
            (d, l, seq![])
        } else {
            (a.0, a.1, a.2.push(l))
        }
    }
}

/// The sections of `content`: heading (empty for the preamble) and body.
pub open spec fn sections_of(content: Seq<char>) -> Seq<(Seq<char>, Seq<char>)> {
    let a = sections_acc(lines_of(content));
    if a.2.len() > 0 || a.1.len() > 0 {
        a.0.push((a.1, join(a.2, "\n"@)))
    } else {
        a.0
    }
}

/// The text of a section's chunk.
pub open spec fn section_text(heading: Seq<char>, body: Seq<char>) -> Seq<char> {
    if heading.len() == 0 {
        trim(body)
    } else {
        heading + "\n\n"@ + trim(body)
    }
}

/// The pieces of all sections, each with its section's heading.
pub open spec fn all_pieces(secs: Seq<(Seq<char>, Seq<char>)>) -> Seq<((Seq<char>, nat, Option<nat>), Seq<char>)>
    decreases secs.len(),
{
    if secs.len() == 0 {
        seq![]
    } else {
        let s = secs.last();
        all_pieces(secs.drop_last()) + pieces_of(section_text(s.0, s.1)).map_values(
            |p: (Seq<char>, nat, Option<nat>)| (p, s.0),
        )
    }
}

/// The metadata members of a markdown chunk.
pub open spec fn md_base(path: Seq<char>, heading: Seq<char>) -> Seq<(Seq<char>, Seq<char>)> {
    seq![("path"@, path), ("heading"@, heading)]
}

fn close_section(h: &Vec<char>, b: &Vec<Vec<char>>) -> (r: (Vec<char>, Vec<char>))
    ensures
        r.0@ == h@,
        r.1@ == join(views(b@), "\n"@),
{
    (h.clone(), join_with(b.as_slice(), chars_of("\n").as_slice()))
}

/// Split `content` into one chunk per section, cutting a section of more
/// than 800 words into windows.
pub fn chunk(path: &str, content: &str) -> (r: Vec<Chunk>)
    requires
        all_pieces(sections_of(content@)).len() <= usize::MAX,
    ensures
        r@.len() == all_pieces(sections_of(content@)).len(),
        forall|j: int|
            0 <= j < r@.len() ==> {
                let p = #[trigger] all_pieces(sections_of(content@))[j];
                chunk_is(r@[j], j, p.0, md_base(path@, p.1))
            },
{
    let ls = lines(chars_of(content).as_slice());
    let ghost lv = views(ls@);
    let mut done: Vec<(Vec<char>, Vec<char>)> = Vec::new();
    let mut h: Vec<char> = Vec::new();
    let mut b: Vec<Vec<char>> = Vec::new();
    let mut i: usize = 0;
    while i < ls.len()
        invariant
            i <= ls@.len(),
            lv == views(ls@),
            lv == lines_of(content@),
            sections_acc(lv.take(i as int)) == (
                done@.map_values(|p: (Vec<char>, Vec<char>)| (p.0@, p.1@)),
                h@,
                views(b@),
            ),
        decreases ls@.len() - i,
    {
        proof {
            assert(lv.take(i + 1).drop_last() =~= lv.take(i as int));
            assert(lv.take(i + 1).last() == ls@[i as int]@);
        }
        let line = &ls[i];
        if starts_with_str(line.as_slice(), "## ") || starts_with_str(line.as_slice(), "### ") {
            if b.len() > 0 || h.len() > 0 {
                let ghost before = done@;
                let sec = close_section(&h, &b);
                done.push(sec);
                proof {
                    assert(done@.map_values(|p: (Vec<char>, Vec<char>)| (p.0@, p.1@)) =~= before.map_values(
                        |p: (Vec<char>, Vec<char>)| (p.0@, p.1@),
                    ).push((h@, join(views(b@), "\n"@))));
                }
            }
            h = line.clone();
            b = Vec::new();
            proof {
                assert(views(b@) =~= Seq::<Seq<char>>::empty());
            }
        } else {
            let ghost before = b@;
            b.push(line.clone());
            proof {
                assert(views(b@) =~= views(before).push(line@));
            }
        }
        i = i + 1;
    }
    proof {
        assert(lv.take(i as int) =~= lv);
    }
    if b.len() > 0 || h.len() > 0 {
        let ghost before = done@;
        let sec = close_section(&h, &b);
        done.push(sec);
        proof {
            assert(done@.map_values(|p: (Vec<char>, Vec<char>)| (p.0@, p.1@)) =~= before.map_values(
                |p: (Vec<char>, Vec<char>)| (p.0@, p.1@),
            ).push((h@, join(views(b@), "\n"@))));
        }
    }
    let ghost secs = sections_of(content@);
    assert(done@.map_values(|p: (Vec<char>, Vec<char>)| (p.0@, p.1@)) == secs);
    let mut chunks: Vec<Chunk> = Vec::new();
    let mut ord: usize = 0;
    let mut k: usize = 0;
    while k < done.len()
        invariant
            k <= done@.len(),
            done@.map_values(|p: (Vec<char>, Vec<char>)| (p.0@, p.1@)) == secs,
            secs == sections_of(content@),
            all_pieces(secs).len() <= usize::MAX,
            ord == all_pieces(secs.take(k as int)).len(),
            chunks@.len() == ord,
            forall|j: int|
                0 <= j < chunks@.len() ==> {
                    let p = #[trigger] all_pieces(secs.take(k as int))[j];
                    chunk_is(chunks@[j], j, p.0, md_base(path@, p.1))
                },
        decreases done@.len() - k,
    {
        let heading = &done[k].0;
        let body = &done[k].1;
        let tb = trim_of(body.as_slice());
        let text = if heading.len() == 0 {
            tb
        } else {
            let mut t = heading.clone();
            extend_str(&mut t, "\n\n");
            extend(&mut t, tb.as_slice());
            t
        };
        let ghost s = secs[k as int];
        proof {
            assert(s == (heading@, body@));
            assert(text@ == section_text(s.0, s.1));
            assert(secs.take(k + 1).drop_last() =~= secs.take(k as int));
            assert(secs.take(k + 1).last() == s);
            lemma_all_pieces_prefix(secs, k as int);
        }
        let mut base: Vec<(String, String)> = Vec::new();
        base.push((string_of(chars_of("path").as_slice()), string_of(chars_of(path).as_slice())));
        base.push((string_of(chars_of("heading").as_slice()), string_of(heading.as_slice())));
        proof {
            assert(pairs(base@) =~= md_base(path@, s.0));
        }
        let ghost c_before = chunks@;
        let ghost o_before = ord;
        emit_chunks(text.as_slice(), &base, &mut ord, &mut chunks);
        proof {
            let prev = all_pieces(secs.take(k as int));
            let now = all_pieces(secs.take(k + 1));
            let ps = pieces_of(section_text(s.0, s.1));
            assert(now =~= prev + ps.map_values(|p: (Seq<char>, nat, Option<nat>)| (p, s.0)));
            assert forall|j: int| 0 <= j < chunks@.len() implies {
                let p = #[trigger] now[j];
                chunk_is(chunks@[j], j, p.0, md_base(path@, p.1))
            } by {
                if j < prev.len() {
                    assert(chunks@[j] == c_before[j]);
                    assert(now[j] == prev[j]);
                } else {
                    let jj = j - prev.len();
                    assert(now[j] == (ps[jj], s.0));
                    assert(chunks@[o_before + jj] == chunks@[j]);
                }
            }
        }
        k = k + 1;
    }
    proof {
        assert(secs.take(k as int) =~= secs);
    }
    chunks
}

proof fn lemma_all_pieces_prefix(secs: Seq<(Seq<char>, Seq<char>)>, k: int)
    requires
        0 <= k < secs.len(),
    ensures
        all_pieces(secs.take(k + 1)).len() <= all_pieces(secs).len(),
    decreases secs.len() - k,
{
    if k + 1 < secs.len() {
        lemma_all_pieces_prefix(secs, k + 1);
        assert(secs.take(k + 2).drop_last() =~= secs.take(k + 1));
    } else {
        assert(secs.take(k + 1) =~= secs);
    }
}

/// Law of the markdown chunker: each chunk has at most 800 words, at least
/// one, and its token count is the number of words of its content.
pub proof fn law_markdown_pieces(secs: Seq<(Seq<char>, Seq<char>)>)
    ensures
        forall|j: int|
            0 <= j < all_pieces(secs).len() ==> {
                let p = #[trigger] all_pieces(secs)[j];
                0 < p.0.1 <= 800 && p.0.1 == crate::text::words_of(p.0.0).len()
            },
    decreases secs.len(),
{
    if secs.len() > 0 {
        law_markdown_pieces(secs.drop_last());
        let s = secs.last();
        crate::rag::chunk::window::lemma_pieces(section_text(s.0, s.1));
        let a = all_pieces(secs.drop_last());
        let b = pieces_of(section_text(s.0, s.1));
        assert forall|j: int| 0 <= j < all_pieces(secs).len() implies {
            let p = #[trigger] all_pieces(secs)[j];
            0 < p.0.1 <= 800 && p.0.1 == crate::text::words_of(p.0.0).len()
        } by {
            if j < a.len() {
                assert(all_pieces(secs)[j] == a[j]);
            } else {
                assert(all_pieces(secs)[j] == (b[j - a.len()], s.0));
            }
        }
    }
}

} // verus!
