//! Rust source chunker: one chunk per top-level item, found by balancing
//! braces from a line that starts an item.
use vstd::prelude::*;
use crate::rag::chunk::window::{chunk_is, emit_texts, flat_pieces, path_base};
use crate::rag::types::Chunk;
use crate::text::{
    chars_of, count_char, count_of, join, join_with, lines, lines_of, starts_with,
    starts_with_str, trim_start, trim_start_of, views,
};

verus! {

/// Prefixes of a line that starts a top-level item.
pub open spec fn item_keywords() -> Seq<Seq<char>> {
    seq![
        "pub fn "@,
        "pub async fn "@,
        "pub unsafe fn "@,
        "fn "@,
        "async fn "@,
        "impl "@,
        "pub impl "@,
        "pub struct "@,
        "struct "@,
        "pub enum "@,
        "enum "@,
        "pub trait "@,
        "trait "@,
        "pub mod "@,
        "mod "@,
        "pub type "@,
        "type "@,
        "pub const "@,
        "const "@,
        "pub static "@,
        "static "@,
        "/// "@,
        "//! "@,
    ]
}

/// After leading whitespace, the line starts with an item keyword.
pub open spec fn item_start(line: Seq<char>) -> bool {
    exists|i: int| 0 <= i < 23 && starts_with(trim_start(line), #[trigger] item_keywords()[i])
}

/// The scanner state after the lines `ls`: finished item texts, lines of
/// the open item, brace depth, whether an item is open, and whether every
/// count and depth so far fitted in an `i32`.
pub open spec fn item_acc(ls: Seq<Seq<char>>) -> (Seq<Seq<char>>, Seq<Seq<char>>, int, bool, bool)
    decreases ls.len(),
{
    if ls.len() == 0 {
        (seq![], seq![], 0, false, true)
    } else {
        let a = item_acc(ls.drop_last());
        let l = ls.last();
        let open = count_char(l, '{') as int;
        let close = count_char(l, '}') as int;
        let fits = open <= i32::MAX && close <= i32::MAX;
        if !a.3 {
            if item_start(l) {
                let cur = a.1.push(l);
                let depth = open - close;
                if depth <= 0 && open == 0 {
                    (a.0.push(join(cur, "\n"@)), seq![], 0, false, a.4 && fits)
                } else {
                    (a.0, cur, depth, true, a.4 && fits)
                }
            } else {
                (a.0, a.1, a.2, false, a.4 && fits)
            }
        } else {
            let cur = a.1.push(l);
            let depth = a.2 + open - close;
            let ok = a.4 && fits && i32::MIN <= depth <= i32::MAX;
            if depth <= 0 {
                (a.0.push(join(cur, "\n"@)), seq![], 0, false, ok)
            } else {
                (a.0, cur, depth, true, ok)
            }
        }
    }
}

/// The item texts of `content`, the unfinished last item included.
pub open spec fn item_texts(content: Seq<char>) -> Seq<Seq<char>> {
    let a = item_acc(lines_of(content));
    if a.1.len() > 0 {
        a.0.push(join(a.1, "\n"@))
    } else {
        a.0
    }
}

/// Whether `line` starts a top-level item.
pub fn is_item_start(line: &str) -> (b: bool)
    ensures
        b == item_start(line@),
{
    let t = trim_start_of(chars_of(line).as_slice());
    let kws: [&str; 23] = [
        "pub fn ",
        "pub async fn ",
        "pub unsafe fn ",
        "fn ",
        "async fn ",
        "impl ",
        "pub impl ",
        "pub struct ",
        "struct ",
        "pub enum ",
        "enum ",
        "pub trait ",
        "trait ",
        "pub mod ",
        "mod ",
        "pub type ",
        "type ",
        "pub const ",
        "const ",
        "pub static ",
        "static ",
        "/// ",
        "//! ",
    ];
    proof {
        assert(forall|i: int| 0 <= i < 23 ==> kws@[i]@ == #[trigger] item_keywords()[i]);
    }
    let mut i: usize = 0;
    while i < 23
        invariant
            i <= 23,
            t@ == trim_start(line@),
            forall|i: int| 0 <= i < 23 ==> kws@[i]@ == #[trigger] item_keywords()[i],
            forall|j: int| 0 <= j < i ==> !starts_with(t@, #[trigger] item_keywords()[j]),
        decreases 23 - i,
    {
        if starts_with_str(t.as_slice(), kws[i]) {
            proof {
                assert(starts_with(t@, item_keywords()[i as int]));
            }
            return true;
        }
        i = i + 1;
    }
    false
}

proof fn lemma_item_ok_prefix(ls: Seq<Seq<char>>, k: int)
    requires
        0 <= k <= ls.len(),
        item_acc(ls).4,
    ensures
        item_acc(ls.take(k)).4,
    decreases ls.len() - k,
{
    if k < ls.len() {
        assert(ls.take(k + 1).drop_last() =~= ls.take(k));
        lemma_item_ok_prefix(ls, k + 1);
    } else {
        assert(ls.take(k) =~= ls);
    }
}

/// Split Rust source into one chunk per top-level item.
pub fn chunk(path: &str, content: &str) -> (r: Vec<Chunk>)
    requires
        item_acc(lines_of(content@)).4,
        flat_pieces(item_texts(content@)).len() <= usize::MAX,
    ensures
        r@.len() == flat_pieces(item_texts(content@)).len(),
        forall|j: int|
            0 <= j < r@.len() ==> chunk_is(
                #[trigger] r@[j],
                j,
                flat_pieces(item_texts(content@))[j],
                seq![("path"@, path@)],
            ),
{
    let ls = lines(chars_of(content).as_slice());
    let ghost lv = views(ls@);
    let nl = chars_of("\n");
    let mut texts: Vec<Vec<char>> = Vec::new();
    let mut cur: Vec<Vec<char>> = Vec::new();
    let mut depth: i32 = 0;
    let mut in_item = false;
    let mut i: usize = 0;
    while i < ls.len()
        invariant
            i <= ls@.len(),
            lv == views(ls@),
            lv == lines_of(content@),
            nl@ == "\n"@,
            item_acc(lv).4,
            ({
                let a = item_acc(lv.take(i as int));
                a.0 == views(texts@) && a.1 == views(cur@) && a.2 == depth as int && a.3 == in_item
                    && a.4
            }),
        decreases ls@.len() - i,
    {
        proof {
            assert(lv.take(i + 1).drop_last() =~= lv.take(i as int));
            assert(lv.take(i + 1).last() == ls@[i as int]@);
            lemma_item_ok_prefix(lv, i + 1);
        }
        let line = &ls[i];
        let open = count_of(line.as_slice(), '{') as i32;
        let close = count_of(line.as_slice(), '}') as i32;
        if !in_item {
            if is_item_start(crate::text::string_of(line.as_slice()).as_str()) {
                in_item = true;
                let ghost before = cur@;
                cur.push(line.clone());
                proof {
                    assert(views(cur@) =~= views(before).push(line@));
                }
                depth = open - close;
                if depth <= 0 && open == 0 {
                    let text = join_with(cur.as_slice(), nl.as_slice());
                    let ghost tb = texts@;
                    texts.push(text);
                    proof {
                        assert(views(texts@) =~= views(tb).push(text@));
                    }
                    cur = Vec::new();
                    in_item = false;
                    depth = 0;
                }
            }
        } else {
            let ghost before = cur@;
            cur.push(line.clone());
            proof {
                assert(views(cur@) =~= views(before).push(line@));
            }
            depth = depth + (open - close);
            if depth <= 0 {
                let text = join_with(cur.as_slice(), nl.as_slice());
                let ghost tb = texts@;
                texts.push(text);
                proof {
                    assert(views(texts@) =~= views(tb).push(text@));
                }
                cur = Vec::new();
                depth = 0;
                in_item = false;
            }
        }
        proof {
            assert(views(cur@) =~= item_acc(lv.take(i + 1)).1);
        }
        i = i + 1;
    }
    proof {
        assert(lv.take(i as int) =~= lv);
    }
    if cur.len() > 0 {
        let text = join_with(cur.as_slice(), nl.as_slice());
        let ghost tb = texts@;
        texts.push(text);
        proof {
            assert(views(texts@) =~= views(tb).push(text@));
        }
    }
    let base = path_base(path);
    emit_texts(&texts, &base)
}

} // verus!
