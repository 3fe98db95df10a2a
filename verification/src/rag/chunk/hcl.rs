//! Terraform / OpenTofu chunker: one chunk per top-level block, found by
//! balancing braces from a line that opens a block.
use vstd::prelude::*;
use crate::rag::chunk::window::{chunk_is, emit_texts, flat_pieces, path_base, pieces_of};
use crate::rag::types::Chunk;
use crate::text::{
    chars_of, count_char, count_of, join, join_with, lines, lines_of, starts_with,
    starts_with_str, trim, trim_of, views,
};

verus! {

/// Keywords that open a top-level block.
pub open spec fn block_keywords() -> Seq<Seq<char>> {
    seq![
        "resource"@,
        "variable"@,
        "module"@,
        "data"@,
        "output"@,
        "locals"@,
        "provider"@,
        "terraform"@,
        "moved"@,
        "import"@,
    ]
}

/// The trimmed line starts with a block keyword and holds a `{`.
pub open spec fn block_start(line: Seq<char>) -> bool {
    let t = trim(line);
    exists|i: int| 0 <= i < 10 && starts_with(t, #[trigger] block_keywords()[i]) && count_char(t, '{') > 0
}

/// The scanner state after the lines `ls`: finished block texts, lines of
/// the open block, brace depth, whether a block is open, and whether every
/// count and depth so far fitted in an `i32`.
pub open spec fn hcl_acc(ls: Seq<Seq<char>>) -> (Seq<Seq<char>>, Seq<Seq<char>>, int, bool, bool)
    decreases ls.len(),
{
    if ls.len() == 0 {
        (seq![], seq![], 0, false, true)
    } else {
        let a = hcl_acc(ls.drop_last());
        let l = ls.last();
        let open = count_char(l, '{') as int;
        let close = count_char(l, '}') as int;
        let fits = open <= i32::MAX && close <= i32::MAX;
        let starting = !a.3 && block_start(l);
        let cur = if starting {
            seq![]
        } else {
            a.1
        };
        let inb = a.3 || starting;
        if inb {
            let cur2 = cur.push(l);
            let depth = a.2 + open - close;
            let ok = a.4 && fits && i32::MIN <= depth <= i32::MAX;
            if depth <= 0 {
                (a.0.push(join(cur2, "\n"@)), seq![], 0, false, ok)
            } else {
                (a.0, cur2, depth, true, ok)
            }
        } else {
            (a.0, cur, a.2, inb, a.4 && fits)
        }
    }
}

/// The block texts of `content`, the unfinished last block included.
pub open spec fn block_texts(content: Seq<char>) -> Seq<Seq<char>> {
    let a = hcl_acc(lines_of(content));
    if a.1.len() > 0 {
        a.0.push(join(a.1, "\n"@))
    } else {
        a.0
    }
}

/// Whether `line` opens a top-level block.
pub fn is_block_start(line: &str) -> (b: bool)
    ensures
        b == block_start(line@),
{
    let t = trim_of(chars_of(line).as_slice());
    let kws: [&str; 10] = [
        "resource",
        "variable",
        "module",
        "data",
        "output",
        "locals",
        "provider",
        "terraform",
        "moved",
        "import",
    ];
    proof {
        assert(forall|i: int| 0 <= i < 10 ==> kws@[i]@ == #[trigger] block_keywords()[i]);
    }
    let has_brace = count_of(t.as_slice(), '{') > 0;
    let mut i: usize = 0;
    while i < 10
        invariant
            i <= 10,
            t@ == trim(line@),
            has_brace == (count_char(t@, '{') > 0),
            forall|i: int| 0 <= i < 10 ==> kws@[i]@ == #[trigger] block_keywords()[i],
            forall|j: int|
                0 <= j < i ==> !(starts_with(t@, #[trigger] block_keywords()[j]) && has_brace),
        decreases 10 - i,
    {
        if starts_with_str(t.as_slice(), kws[i]) && has_brace {
            proof {
                assert(starts_with(t@, block_keywords()[i as int]));
            }
            return true;
        }
        i = i + 1;
    }
    false
}

/// Split `content` into one chunk per top-level block.
pub fn chunk(path: &str, content: &str) -> (r: Vec<Chunk>)
    requires
        hcl_acc(lines_of(content@)).4,
        flat_pieces(block_texts(content@)).len() <= usize::MAX,
    ensures
        r@.len() == flat_pieces(block_texts(content@)).len(),
        forall|j: int|
            0 <= j < r@.len() ==> chunk_is(
                #[trigger] r@[j],
                j,
                flat_pieces(block_texts(content@))[j],
                seq![("path"@, path@)],
            ),
{
    let ls = lines(chars_of(content).as_slice());
    let ghost lv = views(ls@);
    let nl = chars_of("\n");
    let mut texts: Vec<Vec<char>> = Vec::new();
    let mut cur: Vec<Vec<char>> = Vec::new();
    let mut depth: i32 = 0;
    let mut in_block = false;
    let mut i: usize = 0;
    while i < ls.len()
        invariant
            i <= ls@.len(),
            lv == views(ls@),
            lv == lines_of(content@),
            nl@ == "\n"@,
            hcl_acc(lv).4,
            ({
                let a = hcl_acc(lv.take(i as int));
                a.0 == views(texts@) && a.1 == views(cur@) && a.2 == depth as int && a.3 == in_block
                    && a.4
            }),
        decreases ls@.len() - i,
    {
        proof {
            assert(lv.take(i + 1).drop_last() =~= lv.take(i as int));
            assert(lv.take(i + 1).last() == ls@[i as int]@);
            lemma_hcl_ok_prefix(lv, i + 1);
        }
        let line = &ls[i];
        let open = count_of(line.as_slice(), '{') as i32;
        let close = count_of(line.as_slice(), '}') as i32;
        if !in_block && is_block_start(crate::text::string_of(line.as_slice()).as_str()) {
            in_block = true;
            cur = Vec::new();
        }
        if in_block {
            let ghost before = cur@;
            cur.push(line.clone());
            proof {
                assert(views(cur@) =~= views(before).push(line@));
            }
            depth = depth + (open - close);
            if depth <= 0 {
                let text = join_with(cur.as_slice(), nl.as_slice());
                let ghost tb = texts@;
                texts.push(text);
                proof {
                    assert(views(texts@) =~= views(tb).push(text@));
                }
                cur = Vec::new();
                depth = 0;
                in_block = false;
            }
        }
        proof {
            assert(views(cur@) =~= hcl_acc(lv.take(i + 1)).1);
        }
        i = i + 1;
    }
    proof {
        assert(lv.take(i as int) =~= lv);
    }
    if cur.len() > 0 {
        let text = join_with(cur.as_slice(), nl.as_slice());
        let ghost tb = texts@;
        texts.push(text);
        proof {
            assert(views(texts@) =~= views(tb).push(text@));
        }
    }
    let base = path_base(path);
    emit_texts(&texts, &base)
}

proof fn lemma_hcl_ok_prefix(ls: Seq<Seq<char>>, k: int)
    requires
        0 <= k <= ls.len(),
        hcl_acc(ls).4,
    ensures
        hcl_acc(ls.take(k)).4,
    decreases ls.len() - k,
{
    if k < ls.len() {
        assert(ls.take(k + 1).drop_last() =~= ls.take(k));
        lemma_hcl_ok_prefix(ls, k + 1);
    } else {
        assert(ls.take(k) =~= ls);
    }
}

/// A line opens a top-level block exactly when its trimmed text begins with
/// one of the Terraform block keywords `resource`, `variable`, `module`,
/// `data`, `output`, `locals`, `provider`, `terraform`, `moved` or `import`
/// and holds a `{`.
pub proof fn law_block_keywords(line: Seq<char>)
    ensures
        ({
            let t = trim(line);
            let brace = count_char(t, '{') > 0;
            &&& brace && starts_with(t, "resource"@) ==> block_start(line)
            &&& brace && starts_with(t, "variable"@) ==> block_start(line)
            &&& brace && starts_with(t, "module"@) ==> block_start(line)
            &&& brace && starts_with(t, "data"@) ==> block_start(line)
            &&& brace && starts_with(t, "output"@) ==> block_start(line)
            &&& brace && starts_with(t, "locals"@) ==> block_start(line)
            &&& brace && starts_with(t, "provider"@) ==> block_start(line)
            &&& brace && starts_with(t, "terraform"@) ==> block_start(line)
            &&& brace && starts_with(t, "moved"@) ==> block_start(line)
            &&& brace && starts_with(t, "import"@) ==> block_start(line)
            &&& block_start(line) ==> brace && (starts_with(t, "resource"@) || starts_with(t, "variable"@)
                || starts_with(t, "module"@) || starts_with(t, "data"@) || starts_with(t, "output"@)
                || starts_with(t, "locals"@) || starts_with(t, "provider"@) || starts_with(t, "terraform"@)
                || starts_with(t, "moved"@) || starts_with(t, "import"@))
        }),
{
    let t = trim(line);
    let k = block_keywords();
    assert(k[0] == "resource"@);
    assert(k[1] == "variable"@);
    assert(k[2] == "module"@);
    assert(k[3] == "data"@);
    assert(k[4] == "output"@);
    assert(k[5] == "locals"@);
    assert(k[6] == "provider"@);
    assert(k[7] == "terraform"@);
    assert(k[8] == "moved"@);
    assert(k[9] == "import"@);
}

} // verus!
