//! Python chunker: one chunk per top-level definition with its decorators,
//! ending where a line comes back to the definition's indentation.
use vstd::prelude::*;
use crate::rag::chunk::window::{chunk_is, emit_texts, flat_pieces, path_base};
use crate::rag::types::Chunk;
use crate::text::{
    byte_len, char_width, chars_of, join, join_with, leading_ws, lines, lines_of, starts_with,
    starts_with_str, trim, trim_of, trim_start, utf8_width, views,
};

verus! {

/// Prefixes of a line that starts a definition.
pub open spec fn def_keywords() -> Seq<Seq<char>> {
    seq!["def "@, "async def "@, "class "@, "@tool"@, "@app."@, "@router."@]
}

/// After leading whitespace, the line starts with a definition keyword.
pub open spec fn def_start(line: Seq<char>) -> bool {
    exists|i: int| 0 <= i < 6 && starts_with(trim_start(line), #[trigger] def_keywords()[i])
}

/// After leading whitespace, the line starts with `@`.
pub open spec fn decorator(line: Seq<char>) -> bool {
    let t = trim_start(line);
    t.len() > 0 && t[0] == '@'
}

/// Bytes of leading whitespace.
pub open spec fn indent(line: Seq<char>) -> int {
    byte_len(line) - byte_len(trim_start(line))
}

/// The first index at or after `i` whose line is not a decorator.
pub open spec fn decorators_end(ls: Seq<Seq<char>>, i: int) -> int
    decreases ls.len() - i,
{
    if 0 <= i < ls.len() && decorator(ls[i]) {
        decorators_end(ls, i + 1)
    } else {
        i
    }
}

/// A line that ends the open definition of indentation `b`.
pub open spec fn ends_def(line: Seq<char>, b: int) -> bool {
    trim(line).len() > 0 && indent(line) <= b && !starts_with(trim_start(line), "#"@)
}

/// Scanning from line `i` with the open definition's lines `cur` and its
/// indentation `ind`: the definition texts and the lines left open.
pub open spec fn py_scan(ls: Seq<Seq<char>>, i: int, cur: Seq<Seq<char>>, ind: Option<int>, texts: Seq<Seq<char>>) -> (Seq<Seq<char>>, Seq<Seq<char>>)
    decreases ls.len() + 1 - i, if ind is Some {
        1int
    } else {
        0int
    },
{
    if i < 0 || i >= ls.len() {
        (texts, cur)
    } else {
        let line = ls[i];
        match ind {
            None => if decorator(line) {
                let j = decorators_end(ls, i + 1);
                if j <= i || j > ls.len() {
                    (texts, cur)
                } else {
                    let cur2 = cur + ls.subrange(i, j);
                    if j < ls.len() && def_start(ls[j]) {
                        py_scan(ls, j + 1, cur2.push(ls[j]), Some(indent(ls[j])), texts)
                    } else {
                        py_scan(ls, j + 1, cur2, None, texts)
                    }
                }
            } else if def_start(line) {
                py_scan(ls, i + 1, cur.push(line), Some(indent(line)), texts)
            } else {
                py_scan(ls, i + 1, cur, None, texts)
            },
            Some(b) => if ends_def(line, b) {
                let texts2 = texts.push(join(cur, "\n"@));
                if def_start(line) || decorator(line) {
                    py_scan(ls, i, seq![], None, texts2)
                } else {
                    py_scan(ls, i + 1, seq![], None, texts2)
                }
            } else {
                py_scan(ls, i + 1, cur.push(line), Some(b), texts)
            },
        }
    }
}

/// The definition texts of `content`, the unfinished last one included.
pub open spec fn def_texts(content: Seq<char>) -> Seq<Seq<char>> {
    let r = py_scan(lines_of(content), 0, seq![], None, seq![]);
    if r.1.len() > 0 {
        r.0.push(join(r.1, "\n"@))
    } else {
        r.0
    }
}

proof fn lemma_decorators_end(ls: Seq<Seq<char>>, i: int)
    requires
        0 <= i <= ls.len(),
    ensures
        i <= decorators_end(ls, i) <= ls.len(),
        forall|k: int| i <= k < decorators_end(ls, i) ==> decorator(#[trigger] ls[k]),
        decorators_end(ls, i) < ls.len() ==> !decorator(ls[decorators_end(ls, i)]),
    decreases ls.len() - i,
{
    if i < ls.len() && decorator(ls[i]) {
        lemma_decorators_end(ls, i + 1);
    }
}

fn indent_bytes(line: &[char]) -> (n: u128)
    ensures
        n == indent(line@),
{
    let k = leading_ws(line);
    let mut n: u128 = 0;
    let mut i: usize = 0;
    while i < k
        invariant
            i <= k <= line@.len(),
            n == byte_len(line@.take(i as int)),
            n <= 4 * i,
        decreases k - i,
    {
        proof {
            assert(line@.take(i + 1).drop_last() =~= line@.take(i as int));
        }
        n = n + char_width(line[i]) as u128;
        i = i + 1;
    }
    proof {
        assert(line@ =~= line@.take(k as int) + line@.skip(k as int));
        crate::text::lemma_byte_len_concat(line@.take(k as int), line@.skip(k as int));
    }
    n
}

/// Bytes of leading whitespace of `line`.
pub fn indent_level(line: &str) -> (n: usize)
    requires
        byte_len(line@) <= usize::MAX,
    ensures
        n == indent(line@),
{
    let c = chars_of(line);
    let n = indent_bytes(c.as_slice());
    n as usize
}

/// Whether `line` starts with a decorator.
pub fn is_decorator(line: &str) -> (b: bool)
    ensures
        b == decorator(line@),
{
    let t = crate::text::trim_start_of(chars_of(line).as_slice());
    t.len() > 0 && t[0] == '@'
}

/// Whether `line` starts a definition.
pub fn is_item_start(line: &str) -> (b: bool)
    ensures
        b == def_start(line@),
{
    let t = crate::text::trim_start_of(chars_of(line).as_slice());
    let kws: [&str; 6] = ["def ", "async def ", "class ", "@tool", "@app.", "@router."];
    proof {
        assert(forall|i: int| 0 <= i < 6 ==> kws@[i]@ == #[trigger] def_keywords()[i]);
    }
    let mut i: usize = 0;
    while i < 6
        invariant
            i <= 6,
            t@ == trim_start(line@),
            forall|i: int| 0 <= i < 6 ==> kws@[i]@ == #[trigger] def_keywords()[i],
            forall|j: int| 0 <= j < i ==> !starts_with(t@, #[trigger] def_keywords()[j]),
        decreases 6 - i,
    {
        if starts_with_str(t.as_slice(), kws[i]) {
            proof {
                assert(starts_with(t@, def_keywords()[i as int]));
            }
            return true;
        }
        i = i + 1;
    }
    false
}

fn push_line(cur: &mut Vec<Vec<char>>, line: &Vec<char>)
    ensures
        views(final(cur)@) == views(old(cur)@).push(line@),
{
    let ghost before = cur@;
    cur.push(line.clone());
    proof {
        assert(views(cur@) =~= views(before).push(line@));
    }
}

/// Split Python source into one chunk per top-level definition.
pub fn chunk(path: &str, content: &str) -> (r: Vec<Chunk>)
    requires
        flat_pieces(def_texts(content@)).len() <= usize::MAX,
    ensures
        r@.len() == flat_pieces(def_texts(content@)).len(),
        forall|j: int|
            0 <= j < r@.len() ==> chunk_is(
                #[trigger] r@[j],
                j,
                flat_pieces(def_texts(content@))[j],
                seq![("path"@, path@)],
            ),
{
    let ls = lines(chars_of(content).as_slice());
    let ghost lv = views(ls@);
    let ghost goal = py_scan(lv, 0, seq![], None, seq![]);
    let nl = chars_of("\n");
    let mut texts: Vec<Vec<char>> = Vec::new();
    let mut cur: Vec<Vec<char>> = Vec::new();
    let mut ind: Option<u128> = None;
    let mut i: usize = 0;
    proof {
        assert(views(cur@) =~= Seq::<Seq<char>>::empty());
        assert(views(texts@) =~= Seq::<Seq<char>>::empty());
    }
    while i < ls.len()
        invariant
            lv == views(ls@),
            lv == lines_of(content@),
            nl@ == "\n"@,
            goal == py_scan(
                lv,
                i as int,
                views(cur@),
                match ind {
                    Some(b) => Some(b as int),
                    None => None,
                },
                views(texts@),
            ),
        decreases ls@.len() + 1 - i, if ind is Some {
            1int
        } else {
            0int
        },
    {
        let line = &ls[i];
        let ls_str = crate::text::string_of(line.as_slice());
        proof {
            assert(lv[i as int] == line@);
        }
        match ind {
            None => {
                if is_decorator(ls_str.as_str()) {
                    let mut j = i + 1;
                    proof {
                        lemma_decorators_end(lv, i + 1);
                    }
                    while j < ls.len() && is_decorator(crate::text::string_of(ls[j].as_slice()).as_str())
                        invariant
                            i < j <= ls@.len(),
                            lv == views(ls@),
                            decorators_end(lv, i + 1) == decorators_end(lv, j as int),
                        decreases ls@.len() - j,
                    {
                        proof {
                            assert(lv[j as int] == ls@[j as int]@);
                        }
                        j = j + 1;
                    }
                    proof {
                        if j < ls@.len() {
                            assert(lv[j as int] == ls@[j as int]@);
                        }
                        lemma_decorators_end(lv, j as int);
                    }
                    let ghost cur_before = views(cur@);
                    let ghost jj = j as int;
                    proof {
                        assert(decorator(lv[i as int]));
                        assert(decorators_end(lv, i + 1) == jj);
                        assert(py_scan(lv, i as int, cur_before, None, views(texts@)) == (if jj < lv.len() && def_start(lv[jj]) {
                            py_scan(lv, jj + 1, (cur_before + lv.subrange(i as int, jj)).push(lv[jj]), Some(indent(lv[jj])), views(texts@))
                        } else {
                            py_scan(lv, jj + 1, cur_before + lv.subrange(i as int, jj), None, views(texts@))
                        }));
                    }
                    let mut k = i;
                    while k < j
                        invariant
                            i <= k <= j <= ls@.len(),
                            lv == views(ls@),
                            views(cur@) == cur_before + lv.subrange(i as int, k as int),
                        decreases j - k,
                    {
                        push_line(&mut cur, &ls[k]);
                        k = k + 1;
                        proof {
                            assert(cur_before + lv.subrange(i as int, k as int) =~= (cur_before
                                + lv.subrange(i as int, k - 1)).push(lv[k - 1]));
                        }
                    }
                    if j < ls.len() && is_item_start(crate::text::string_of(ls[j].as_slice()).as_str()) {
                        proof {
                            assert(lv[j as int] == ls@[j as int]@);
                        }
                        ind = Some(indent_bytes(ls[j].as_slice()));
                        push_line(&mut cur, &ls[j]);
                    }
                    if j < ls.len() {
                        i = j + 1;
                    } else {
                        i = j;
                    }
                } else if is_item_start(ls_str.as_str()) {
                    ind = Some(indent_bytes(line.as_slice()));
                    push_line(&mut cur, line);
                    i = i + 1;
                } else {
                    i = i + 1;
                }
            },
            Some(b) => {
                let t = crate::text::trim_start_of(line.as_slice());
                let tt = trim_of(line.as_slice());
                if tt.len() > 0 && indent_bytes(line.as_slice()) <= b && !starts_with_str(
                    t.as_slice(),
                    "#",
                ) {
                    let text = join_with(cur.as_slice(), nl.as_slice());
                    let ghost tb = texts@;
                    texts.push(text);
                    proof {
                        assert(views(texts@) =~= views(tb).push(text@));
                    }
                    cur = Vec::new();
                    proof {
                        assert(views(cur@) =~= Seq::<Seq<char>>::empty());
                    }
                    ind = None;
                    if !(is_item_start(ls_str.as_str()) || is_decorator(ls_str.as_str())) {
                        i = i + 1;
                    }
                } else {
                    push_line(&mut cur, line);
                    i = i + 1;
                }
            },
        }
    }
    if cur.len() > 0 {
        let text = join_with(cur.as_slice(), nl.as_slice());
        let ghost tb = texts@;
        texts.push(text);
        proof {
            assert(views(texts@) =~= views(tb).push(text@));
        }
    }
    let base = path_base(path);
    emit_texts(&texts, &base)
}

} // verus!
