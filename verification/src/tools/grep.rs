//! Finding every occurrence of a pattern in a file's lines.
use vstd::prelude::*;
use crate::text::{
    byte_len, char_width, chars_of, lines, lines_of, lower, lowercase_chars, matches_at, occurs_at,
    string_of, utf8_width, views,
};

verus! {

/// One occurrence: 1-based line number, the line, 1-based byte column.
#[derive(Debug)]
pub struct Match {
    pub line_number: u32,
    pub content: String,
    pub column: u32,
}

/// What a search found.
#[derive(Debug)]
pub struct Output {
    pub success: bool,
    pub matches: Vec<Match>,
    pub total_matches: u32,
    pub error: Option<String>,
}

/// The positions where `p` occurs in `s`, from `from` on; for an empty
/// pattern only the first.
pub open spec fn positions(s: Seq<char>, p: Seq<char>, from: int) -> Seq<int>
    decreases s.len() + 1 - from,
{
    if from < 0 || from > s.len() {
        seq![]
    } else if occurs_at(s, p, from) {
        if p.len() == 0 {
            seq![from]
        } else {
            seq![from] + positions(s, p, from + 1)
        }
    } else {
        positions(s, p, from + 1)
    }
}

/// The text searched for a line: the line itself, or its lowercase form.
pub open spec fn searched(line: Seq<char>, case_sensitive: bool) -> Seq<char> {
    if case_sensitive {
        line
    } else {
        lower(line)
    }
}

/// The matches of the lines `ls`: line number, line and column of each
/// occurrence of `p`, line by line.
pub open spec fn line_matches(ls: Seq<Seq<char>>, p: Seq<char>, cs: bool) -> Seq<(u32, Seq<char>, u32)>
    decreases ls.len(),
{
    if ls.len() == 0 {
        seq![]
    } else {
        let s = searched(ls.last(), cs);
        line_matches(ls.drop_last(), p, cs) + positions(s, p, 0).map_values(
            |j: int| (ls.len() as u32, ls.last(), (byte_len(s.take(j)) + 1) as u32),
        )
    }
}

/// Some occurrence of a non-empty pattern starts with a character of more
/// than one byte: the search could not step one byte past it.
pub open spec fn wide_match(ls: Seq<Seq<char>>, p: Seq<char>, cs: bool) -> bool {
    p.len() > 0 && exists|i: int, j: int|
        0 <= i < ls.len() && #[trigger] occurs_at(searched(ls[i], cs), p, j) && utf8_width(
            searched(ls[i], cs)[j],
        ) > 1
}

/// The search pattern: as given, or lowercase.
pub open spec fn search_pattern(pattern: Seq<char>, cs: bool) -> Seq<char> {
    if cs {
        pattern
    } else {
        lower(pattern)
    }
}

fn positions_in(s: &[char], p: &[char], line_number: u32, content: &Vec<char>, out: &mut Vec<Match>) -> (ok: bool)
    ensures
        ok == !(p@.len() > 0 && exists|j: int| occurs_at(s@, p@, j) && utf8_width(s@[j]) > 1),
        ok ==> final(out)@.len() == old(out)@.len() + positions(s@, p@, 0).len(),
        ok ==> forall|k: int| 0 <= k < old(out)@.len() ==> final(out)@[k] == old(out)@[k],
        ok ==> forall|k: int|
            0 <= k < positions(s@, p@, 0).len() ==> {
                let m = #[trigger] final(out)@[old(out)@.len() + k];
                let j = positions(s@, p@, 0)[k];
                m.line_number == line_number && m.content@ == content@ && m.column == (byte_len(
                    s@.take(j),
                ) + 1) as u32
            },
{
    let ghost all = positions(s@, p@, 0);
    if p.len() == 0 {
        proof {
            assert(occurs_at(s@, p@, 0)) by {
                assert(s@.subrange(0, 0) =~= p@);
            }
            assert(all =~= seq![0int]);
            assert(s@.take(0) =~= Seq::<char>::empty());
        }
        out.push(Match { line_number, content: string_of(content.as_slice()), column: 1 });
        return true;
    }
    let n = s.len();
    let mut j: usize = 0;
    let mut col: u128 = 0;
    let ghost o0 = out@.len();
    let ghost mut done: int = 0;
    proof {
        assert(s@.take(0) =~= Seq::<char>::empty());
        assert(all.skip(0) =~= all);
    }
    while j < n
        invariant
            j <= n,
            n == s@.len(),
            p@.len() > 0,
            col == byte_len(s@.take(j as int)),
            col <= 4 * j,
            0 <= done <= all.len(),
            all.skip(done) == positions(s@, p@, j as int),
            all == positions(s@, p@, 0),
            o0 == old(out)@.len(),
            out@.len() == o0 + done,
            forall|k: int| 0 <= k < o0 ==> out@[k] == old(out)@[k],
            forall|k: int|
                0 <= k < done ==> {
                    let m = #[trigger] out@[o0 + k];
                    let jj = all[k];
                    m.line_number == line_number && m.content@ == content@ && m.column == (byte_len(
                        s@.take(jj),
                    ) + 1) as u32
                },
            forall|t: int| 0 <= t < j ==> !(occurs_at(s@, p@, t) && utf8_width(#[trigger] s@[t]) > 1),
        decreases n - j,
    {
        if matches_at(s, p, j) {
            if char_width(s[j]) > 1 {
                return false;
            }
            out.push(Match {
                line_number,
                content: string_of(content.as_slice()),
                column: (col + 1) as u32,
            });
            proof {
                assert(positions(s@, p@, j as int) == seq![j as int] + positions(s@, p@, j + 1));
                assert((seq![j as int] + positions(s@, p@, j + 1))[0] == j as int);
                assert(all.skip(done)[0] == j as int);
                assert(all[done] == j as int);
                assert(all.skip(done + 1) =~= all.skip(done).drop_first());
                done = done + 1;
            }
        }
        proof {
            assert(s@.take(j + 1).drop_last() =~= s@.take(j as int));
            if !occurs_at(s@, p@, j as int) {
                assert(positions(s@, p@, j as int) == positions(s@, p@, j + 1));
            } else {
                assert(all.skip(done) == positions(s@, p@, j + 1)) by {
                    assert((seq![j as int] + positions(s@, p@, j + 1)).drop_first() =~= positions(s@, p@, j + 1));
                }
            }
        }
        col = col + char_width(s[j]) as u128;
        j = j + 1;
    }
    proof {
        assert(!occurs_at(s@, p@, n as int));
        assert(positions(s@, p@, n as int) =~= Seq::<int>::empty()) by {
            assert(positions(s@, p@, n + 1) =~= Seq::<int>::empty());
        }
        assert(all.skip(done).len() == 0);
        assert forall|t: int| occurs_at(s@, p@, t) implies !(utf8_width(s@[t]) > 1) by {
            assert(0 <= t < j);
        }
    }
    true
}

fn scan(contents: &str, pattern: &str, case_sensitive: bool) -> (r: Option<Vec<Match>>)
    ensures
        ({
            let ls = lines_of(contents@);
            let p = search_pattern(pattern@, case_sensitive);
            match r {
                None => wide_match(ls, p, case_sensitive),
                Some(ms) => !wide_match(ls, p, case_sensitive) && ms@.len() == line_matches(ls, p, case_sensitive).len()
                    && forall|k: int| 0 <= k < ms@.len() ==> {
                        let m = #[trigger] line_matches(ls, p, case_sensitive)[k];
                        ms@[k].line_number == m.0 && ms@[k].content@ == m.1 && ms@[k].column == m.2
                    },
            }
        }),
{
    let ls = lines(chars_of(contents).as_slice());
    let ghost lv = views(ls@);
    let p = if case_sensitive {
        chars_of(pattern)
    } else {
        lowercase_chars(chars_of(pattern).as_slice())
    };
    let ghost pv = search_pattern(pattern@, case_sensitive);
    let mut out: Vec<Match> = Vec::new();
    let mut i: usize = 0;
    while i < ls.len()
        invariant
            i <= ls@.len(),
            lv == views(ls@),
            lv == lines_of(contents@),
            p@ == pv,
            pv == search_pattern(pattern@, case_sensitive),
            !wide_match(lv.take(i as int), pv, case_sensitive),
            out@.len() == line_matches(lv.take(i as int), pv, case_sensitive).len(),
            forall|k: int| 0 <= k < out@.len() ==> {
                let m = #[trigger] line_matches(lv.take(i as int), pv, case_sensitive)[k];
                out@[k].line_number == m.0 && out@[k].content@ == m.1 && out@[k].column == m.2
            },
        decreases ls@.len() - i,
    {
        let line = &ls[i];
        let s = if case_sensitive {
            line.clone()
        } else {
            lowercase_chars(line.as_slice())
        };
        proof {
            assert(lv[i as int] == line@);
            assert(s@ == searched(line@, case_sensitive));
            assert(lv.take(i + 1).drop_last() =~= lv.take(i as int));
            assert(lv.take(i + 1).last() == line@);
        }
        let ghost before = out@;
        let line_number: u32 = (i + 1) as u32;
        let ok = positions_in(s.as_slice(), p.as_slice(), line_number, line, &mut out);
        if !ok {
            proof {
                let j = choose|j: int| occurs_at(s@, p@, j) && utf8_width(s@[j]) > 1;
                assert(occurs_at(searched(lv[i as int], case_sensitive), pv, j));
                assert(pv.len() > 0);
                assert(utf8_width(searched(lv[i as int], case_sensitive)[j]) > 1);
                assert(wide_match(lv, pv, case_sensitive));
            }
            return None;
        }
        proof {
            let prev = line_matches(lv.take(i as int), pv, case_sensitive);
            let now = line_matches(lv.take(i + 1), pv, case_sensitive);
            let ps = positions(s@, pv, 0);
            assert(now =~= prev + ps.map_values(|j: int| ((i + 1) as u32, line@, (byte_len(s@.take(j)) + 1) as u32)));
            assert forall|k: int| 0 <= k < out@.len() implies {
                let m = #[trigger] now[k];
                out@[k].line_number == m.0 && out@[k].content@ == m.1 && out@[k].column == m.2
            } by {
                if k < prev.len() {
                    assert(out@[k] == before[k]);
                } else {
                    assert(out@[before.len() + (k - prev.len())] == out@[k]);
                }
            }
            assert(!wide_match(lv.take(i + 1), pv, case_sensitive)) by {
                if wide_match(lv.take(i + 1), pv, case_sensitive) {
                    let (a, b) = choose|a: int, b: int| 0 <= a < lv.take(i + 1).len() && #[trigger] occurs_at(searched(lv.take(i + 1)[a], case_sensitive), pv, b) && utf8_width(searched(lv.take(i + 1)[a], case_sensitive)[b]) > 1;
                    if a < i {
                        assert(lv.take(i as int)[a] == lv.take(i + 1)[a]);
                        assert(occurs_at(searched(lv.take(i as int)[a], case_sensitive), pv, b));
                    }
                }
            }
        }
        i = i + 1;
    }
    proof {
        assert(lv.take(i as int) =~= lv);
    }
    Some(out)
}

/// Every occurrence of `pattern` in the lines of `contents`, ignoring case
/// unless `case_sensitive`.
pub fn search_lines(contents: &str, pattern: &str, case_sensitive: bool) -> (r: Output)
    requires
        !wide_match(lines_of(contents@), search_pattern(pattern@, case_sensitive), case_sensitive),
    ensures
        ({
            let ms = line_matches(lines_of(contents@), search_pattern(pattern@, case_sensitive), case_sensitive);
            &&& r.success && r.error is None
            &&& r.matches@.len() == ms.len()
            &&& r.total_matches == ms.len() as u32
            &&& forall|k: int| 0 <= k < ms.len() ==> {
                let m = #[trigger] ms[k];
                r.matches@[k].line_number == m.0 && r.matches@[k].content@ == m.1 && r.matches@[k].column == m.2
            }
        }),
{
    match scan(contents, pattern, case_sensitive) {
        Some(ms) => {
            let total = ms.len() as u32;
            Output { success: true, matches: ms, total_matches: total, error: None }
        },
        None => {
            proof {
                assert(false);
            }
            Output { success: true, matches: Vec::new(), total_matches: 0, error: None }
        },
    }
}

/// `search_lines` where it can step past every occurrence; `None` when a
/// non-empty pattern occurs starting at a character of more than one byte.
pub fn search_checked(contents: &str, pattern: &str, case_sensitive: bool) -> (r: Option<Output>)
    ensures
        r is None <==> wide_match(lines_of(contents@), search_pattern(pattern@, case_sensitive), case_sensitive),
{
    match scan(contents, pattern, case_sensitive) {
        None => None,
        Some(_) => Some(search_lines(contents, pattern, case_sensitive)),
    }
}

/// The `grep_file` tool.
pub struct GrepFile;

impl GrepFile {
    /// The tool's name.
    pub fn name() -> (r: &'static str)
        ensures
            r@ == "grep_file"@,
    {
        "grep_file"
    }

    /// The tool's description.
    pub fn description() -> (r: &'static str)
        ensures
            r@ == "Search within a single file for a pattern. Prefer native Grep/Bash for general searches; use this for MCP-scoped file searching."@,
    {
        "Search within a single file for a pattern. Prefer native Grep/Bash for general searches; use this for MCP-scoped file searching."
    }
}

} // verus!
