//! Occurrences of a pattern across the files of a project: which files
//! are searched, how a line is matched, and the running totals that stop
//! the search at the result limit.
use vstd::prelude::*;
use crate::pattern::{
    compile, compile_glob, escape, escaped, glob_match, glob_matches, match_starts, regex_compiles,
    regex_match_starts, Glob, RegexPattern,
};
use crate::text::{
    byte_len, char_width, chars_of, concat2, lines, lines_of, lowercase_chars, matches_at, occurs_at,
    string_of, utf8_width, views,
};
use crate::tools::grep::{positions, search_pattern, searched};

verus! {

/// The `grep_project` tool.
pub struct GrepProject;

impl GrepProject {
    /// The tool's name.
    pub fn name() -> (r: &'static str)
        ensures
            r@ == "grep_project"@,
    {
        "grep_project"
    }

    /// The tool's description.
    pub fn description() -> (r: &'static str)
        ensures
            r@ == "Search for a pattern across multiple files in a directory"@,
    {
        "Search for a pattern across multiple files in a directory"
    }
}

/// One occurrence in a file: 1-based line, the line, 1-based column.
#[derive(Debug)]
pub struct Match {
    pub line_number: u32,
    pub content: String,
    pub column: u32,
}

/// The occurrences in one file.
#[derive(Debug)]
pub struct FileMatch {
    pub file: String,
    pub matches: Vec<Match>,
}

/// What a search across files found.
#[derive(Debug)]
pub struct Output {
    pub success: bool,
    pub matches: Vec<FileMatch>,
    pub files_searched: u32,
    pub total_matches: u32,
    pub truncated: bool,
    pub error: Option<String>,
}

/// How the lines of a project are searched: with a regular expression
/// when the pattern compiles as one, else for the pattern as literal text.
#[derive(Debug)]
pub enum LineMatcher {
    Regex(RegexPattern),
    /// The text searched for (lowercase when the search ignores case).
    Literal { pattern: Vec<char>, case_sensitive: bool },
}

/// The regular expression tried for a search: the pattern itself, or the
/// escaped pattern behind `(?i)` when the search ignores case.
pub open spec fn regex_source(pattern: Seq<char>, case_sensitive: bool) -> Seq<char> {
    if case_sensitive {
        pattern
    } else {
        "(?i)"@ + escaped(pattern)
    }
}

/// `m` is the matcher of a search for `pattern`.
pub open spec fn matcher_for(m: LineMatcher, pattern: Seq<char>, case_sensitive: bool) -> bool {
    let src = regex_source(pattern, case_sensitive);
    if regex_compiles(src) {
        m matches LineMatcher::Regex(p) && p.text() == src
    } else {
        m matches LineMatcher::Literal { pattern: q, case_sensitive: c } && q@ == search_pattern(
            pattern,
            case_sensitive,
        ) && c == case_sensitive
    }
}

/// The matcher of a search for `pattern`.
pub fn line_matcher(pattern: &str, case_sensitive: bool) -> (m: LineMatcher)
    ensures
        matcher_for(m, pattern@, case_sensitive),
{
    let source = if case_sensitive {
        string_of(chars_of(pattern).as_slice())
    } else {
        let e = escape(pattern);
        concat2("(?i)", chars_of(e.as_str()).as_slice())
    };
    match compile(source.as_str()) {
        Some(p) => LineMatcher::Regex(p),
        None => {
            let q = if case_sensitive {
                chars_of(pattern)
            } else {
                lowercase_chars(chars_of(pattern).as_slice())
            };
            LineMatcher::Literal { pattern: q, case_sensitive }
        },
    }
}

/// Byte offset `b` falls between two characters of `s` (or at an end).
pub open spec fn char_boundary(s: Seq<char>, b: int) -> bool {
    exists|k: int| 0 <= k <= s.len() && #[trigger] byte_len(s.take(k)) == b
}

/// The literal search of `line` fails at the occurrence starting at
/// character `j` of the searched text: it cannot step past a wide first
/// character, or the occurrence's bytes do not fall on characters of the
/// line itself.
pub open spec fn fails_at(line: Seq<char>, p: Seq<char>, cs: bool, j: int) -> bool {
    let s = searched(line, cs);
    let col = byte_len(s.take(j)) as int;
    (p.len() > 0 && utf8_width(s[j]) > 1) || !char_boundary(line, col) || !char_boundary(line, col + byte_len(p) as int)
}

/// The literal search of `line` for `p` fails at one of the occurrences
/// it visits.
pub open spec fn literal_fails(line: Seq<char>, p: Seq<char>, cs: bool) -> bool {
    let ps = positions(searched(line, cs), p, 0);
    exists|k: int| 0 <= k < ps.len() && fails_at(line, p, cs, #[trigger] ps[k])
}

/// The byte offsets of the literal occurrences of `p` in a line.
pub open spec fn literal_starts(line: Seq<char>, p: Seq<char>, cs: bool) -> Seq<int> {
    let s = searched(line, cs);
    positions(s, p, 0).map_values(|j: int| byte_len(s.take(j)) as int)
}

/// The byte offsets at which matches start in `line`.
pub open spec fn line_starts(m: LineMatcher, line: Seq<char>) -> Seq<int> {
    match m {
        LineMatcher::Regex(p) => regex_match_starts(p.text(), line).map_values(|n: nat| n as int),
        LineMatcher::Literal { pattern, case_sensitive } => literal_starts(line, pattern@, case_sensitive),
    }
}

/// Searching `line` cannot complete.
pub open spec fn line_fails(m: LineMatcher, line: Seq<char>) -> bool {
    match m {
        LineMatcher::Regex(_) => false,
        LineMatcher::Literal { pattern, case_sensitive } => literal_fails(line, pattern@, case_sensitive),
    }
}
/// The matches in the lines `ls`, line by line: 1-based line number, the
/// line, and 1-based byte column.
pub open spec fn file_hits(ls: Seq<Seq<char>>, m: LineMatcher) -> Seq<(u32, Seq<char>, u32)>
    decreases ls.len(),
{
    if ls.len() == 0 {
        seq![]
    } else {
        file_hits(ls.drop_last(), m) + line_starts(m, ls.last()).map_values(
            |b: int| (ls.len() as u32, ls.last(), (b + 1) as u32),
        )
    }
}

/// Some line that the search reaches before the limit of `room` further
/// matches cannot be searched.
pub open spec fn search_fails(ls: Seq<Seq<char>>, m: LineMatcher, room: int) -> bool {
    exists|i: int| 0 <= i < ls.len() && line_fails(m, #[trigger] ls[i]) && file_hits(ls.take(i), m).len() <= room
}

proof fn lemma_hits_grow(ls: Seq<Seq<char>>, m: LineMatcher, a: int, b: int)
    requires
        0 <= a <= b <= ls.len(),
    ensures
        file_hits(ls.take(a), m).len() <= file_hits(ls.take(b), m).len(),
    decreases b - a,
{
    if a < b {
        lemma_hits_grow(ls, m, a, b - 1);
        assert(ls.take(b).drop_last() =~= ls.take(b - 1));
    }
}

fn char_boundary_at(s: &[char], b: u128) -> (r: bool)
    ensures
        r == char_boundary(s@, b as int),
{
    let mut n: u128 = 0;
    let mut k: usize = 0;
    proof {
        assert(s@.take(0) =~= Seq::<char>::empty());
    }
    while k < s.len()
        invariant
            k <= s@.len(),
            n == byte_len(s@.take(k as int)),
            n <= 4 * k,
            forall|t: int| 0 <= t < k ==> byte_len(s@.take(t)) < n,
            forall|t: int| 0 <= t < k ==> #[trigger] byte_len(s@.take(t)) != b,
        decreases s@.len() - k,
    {
        if n == b {
            return true;
        }
        proof {
            assert(s@.take(k + 1).drop_last() =~= s@.take(k as int));
        }
        n = n + char_width(s[k]) as u128;
        k = k + 1;
    }
    if n == b {
        return true;
    }
    proof {
        assert(s@.take(k as int) =~= s@);
        assert forall|t: int| 0 <= t <= s@.len() implies #[trigger] byte_len(s@.take(t)) != b by {
            if t == s@.len() {
                assert(s@.take(t) =~= s@);
            }
        }
    }
    false
}

fn byte_total(p: &[char]) -> (n: u128)
    ensures
        n == byte_len(p@),
        n <= 4 * p@.len(),
{
    let mut n: u128 = 0;
    let mut k: usize = 0;
    proof {
        assert(p@.take(0) =~= Seq::<char>::empty());
    }
    while k < p.len()
        invariant
            k <= p@.len(),
            n == byte_len(p@.take(k as int)),
            n <= 4 * k,
        decreases p@.len() - k,
    {
        proof {
            assert(p@.take(k + 1).drop_last() =~= p@.take(k as int));
        }
        n = n + char_width(p[k]) as u128;
        k = k + 1;
    }
    proof {
        assert(p@.take(k as int) =~= p@);
    }
    n
}

proof fn lemma_boundary_bound(s: Seq<char>, b: int)
    requires
        char_boundary(s, b),
    ensures
        0 <= b <= byte_len(s),
{
    let k = choose|k: int| 0 <= k <= s.len() && #[trigger] byte_len(s.take(k)) == b;
    crate::text::lemma_byte_len_prefix_le(s, k);
}

/// The byte offsets of the literal occurrences of `p` in `line`, searched
/// as is or lowercase; `None` when the search cannot complete.
fn literal_line(line: &[char], p: &[char], cs: bool) -> (r: Option<Vec<usize>>)
    requires
        byte_len(line@) <= usize::MAX,
    ensures
        match r {
            None => literal_fails(line@, p@, cs),
            Some(v) => !literal_fails(line@, p@, cs) && v@.len() == literal_starts(line@, p@, cs).len()
                && forall|k: int| 0 <= k < v@.len() ==> v@[k] as int == #[trigger] literal_starts(line@, p@, cs)[k],
        },
{
    let s = if cs {
        crate::text::slice_copy(line, 0, line.len())
    } else {
        lowercase_chars(line)
    };
    let ghost sv = searched(line@, cs);
    assert(line@.subrange(0, line@.len() as int) =~= line@);
    assert(s@ == sv);
    let ghost all = positions(sv, p@, 0);
    let mut out: Vec<usize> = Vec::new();
    if p.len() == 0 {
        proof {
            assert(occurs_at(sv, p@, 0)) by {
                assert(sv.subrange(0, 0) =~= p@);
            }
            assert(all =~= seq![0int]);
            assert(sv.take(0) =~= Seq::<char>::empty());
            assert(line@.take(0) =~= Seq::<char>::empty());
            assert(byte_len(line@.take(0)) == 0);
            assert(char_boundary(line@, 0));
            assert(!fails_at(line@, p@, cs, 0));
            assert forall|k: int| 0 <= k < all.len() implies !fails_at(line@, p@, cs, #[trigger] all[k]) by {
                assert(all[k] == 0);
            }
        }
        out.push(0);
        proof {
            assert(literal_starts(line@, p@, cs) =~= seq![0int]);
        }
        return Some(out);
    }
    let plen = byte_total(p);
    let n = s.len();
    let mut j: usize = 0;
    let mut col: u128 = 0;
    let ghost mut done: int = 0;
    proof {
        assert(sv.take(0) =~= Seq::<char>::empty());
        assert(all.skip(0) =~= all);
    }
    while j < n
        invariant
            j <= n,
            n == sv.len(),
            s@ == sv,
            sv == searched(line@, cs),
            all == positions(sv, p@, 0),
            p@.len() > 0,
            plen == byte_len(p@),
            plen <= 4 * p@.len(),
            byte_len(line@) <= usize::MAX,
            col == byte_len(sv.take(j as int)),
            col <= 4 * j,
            0 <= done <= all.len(),
            all.skip(done) == positions(sv, p@, j as int),
            out@.len() == done,
            forall|k: int| 0 <= k < done ==> out@[k] as int == #[trigger] literal_starts(line@, p@, cs)[k],
            forall|k: int| 0 <= k < done ==> !fails_at(line@, p@, cs, #[trigger] all[k]),
            forall|k: int| 0 <= k < done ==> all[k] < j,
        decreases n - j,
    {
        if matches_at(s.as_slice(), p, j) {
            proof {
                assert(positions(sv, p@, j as int) == seq![j as int] + positions(sv, p@, j + 1));
                assert(all.skip(done).len() > 0);
                assert(all.skip(done)[0] == j as int);
                assert(all[done] == j as int);
            }
            let wide = char_width(s[j]) > 1;
            let start_ok = char_boundary_at(line, col);
            let end_ok = char_boundary_at(line, col + plen);
            if wide || !start_ok || !end_ok {
                proof {
                    assert(fails_at(line@, p@, cs, all[done]));
                }
                return None;
            }
            proof {
                lemma_boundary_bound(line@, col as int);
                assert(literal_starts(line@, p@, cs)[done] == col as int);
            }
            out.push(col as usize);
            proof {
                assert(all.skip(done + 1) =~= all.skip(done).drop_first());
                done = done + 1;
                assert((seq![j as int] + positions(sv, p@, j + 1)).drop_first() =~= positions(sv, p@, j + 1));
            }
        } else {
            proof {
                assert(positions(sv, p@, j as int) == positions(sv, p@, j + 1));
            }
        }
        proof {
            assert(sv.take(j + 1).drop_last() =~= sv.take(j as int));
        }
        col = col + char_width(s[j]) as u128;
        j = j + 1;
    }
    proof {
        assert(!occurs_at(sv, p@, n as int));
        assert(positions(sv, p@, n as int) =~= Seq::<int>::empty()) by {
            assert(positions(sv, p@, n + 1) =~= Seq::<int>::empty());
        }
        assert(all.skip(done).len() == 0);
        assert(done == all.len());
    }
    Some(out)
}

/// The byte offsets at which matches start in `line`; `None` when the
/// search of the line cannot complete.
pub fn starts_in(m: &LineMatcher, line: &str) -> (r: Option<Vec<usize>>)
    requires
        byte_len(line@) <= usize::MAX,
    ensures
        match r {
            None => line_fails(*m, line@),
            Some(v) => !line_fails(*m, line@) && v@.len() == line_starts(*m, line@).len() && forall|k: int|
                0 <= k < v@.len() ==> v@[k] as int == #[trigger] line_starts(*m, line@)[k],
        },
{
    match m {
        LineMatcher::Regex(p) => {
            let v = match_starts(p, line);
            Some(v)
        },
        LineMatcher::Literal { pattern, case_sensitive } => {
            let lc = chars_of(line);
            literal_line(lc.as_slice(), pattern.as_slice(), *case_sensitive)
        },
    }
}

/// A project search in progress: the matches so far, file by file, and
/// the running totals.
#[derive(Debug)]
pub struct ProjectSearch {
    pub matches: Vec<FileMatch>,
    pub files_searched: u32,
    pub total_matches: u32,
    pub truncated: bool,
    /// The most matches reported.
    pub max_results: u32,
}

/// `m` reports the hit `h`.
pub open spec fn match_is(m: Match, h: (u32, Seq<char>, u32)) -> bool {
    m.line_number == h.0 && m.content@ == h.1 && m.column == h.2
}

/// `f` reports the hits `hs` of `file`.
pub open spec fn file_match_is(f: FileMatch, file: Seq<char>, hs: Seq<(u32, Seq<char>, u32)>) -> bool {
    &&& f.file@ == file
    &&& f.matches@.len() == hs.len()
    &&& forall|k: int| 0 <= k < hs.len() ==> match_is(#[trigger] f.matches@[k], hs[k])
}

/// The number of matches reported over `fs`.
pub open spec fn match_count(fs: Seq<FileMatch>) -> int
    decreases fs.len(),
{
    if fs.len() == 0 {
        0
    } else {
        match_count(fs.drop_last()) + fs.last().matches@.len()
    }
}

impl ProjectSearch {
    /// The tally of a search: at most `max_results` matches counted; until
    /// it is cut, the reported files' matches add up to the count; once cut,
    /// the count is `max_results` and the reported matches are no more
    /// (the matches of the file being searched when the limit was reached
    /// are left out); no reported file has an empty match list.
    pub open spec fn tally_ok(self) -> bool {
        &&& self.total_matches <= self.max_results
        &&& if self.truncated {
            self.total_matches == self.max_results && match_count(self.matches@) <= self.total_matches
        } else {
            match_count(self.matches@) == self.total_matches
        }
        &&& forall|i: int| 0 <= i < self.matches@.len() ==> (#[trigger] self.matches@[i]).matches@.len() > 0
    }
}

proof fn lemma_count_push(fs: Seq<FileMatch>, f: FileMatch)
    ensures
        match_count(fs.push(f)) == match_count(fs) + f.matches@.len(),
{
    assert(fs.push(f).drop_last() =~= fs);
}

impl ProjectSearch {
    /// A search reporting at most `max_results` matches, 1000 by default.
    pub fn new(max_results: Option<u32>) -> (s: ProjectSearch)
        ensures
            s.tally_ok(),
            s.matches@.len() == 0,
            s.files_searched == 0 && s.total_matches == 0 && !s.truncated,
            s.max_results == match max_results {
                Some(n) => n,
                None => 1000,
            },
    {
        let max = match max_results {
            Some(n) => n,
            None => 1000,
        };
        ProjectSearch { matches: Vec::new(), files_searched: 0, total_matches: 0, truncated: false, max_results: max }
    }

    /// Search the contents of one more file. `Some(true)` when the result
    /// limit was reached and the search stops, with this file's matches
    /// left out; `None` when a line cannot be searched.
    pub fn search_file(&mut self, file: &str, contents: &str, m: &LineMatcher) -> (r: Option<bool>)
        requires
            old(self).total_matches <= old(self).max_results,
            old(self).files_searched < u32::MAX,
            forall|i: int|
                0 <= i < lines_of(contents@).len() ==> byte_len(#[trigger] lines_of(contents@)[i]) <= usize::MAX,
        ensures
            old(self).tally_ok() ==> final(self).tally_ok(),
            ({
                let ls = lines_of(contents@);
                let room = old(self).max_results - old(self).total_matches;
                let hs = file_hits(ls, *m);
                &&& r is None <==> search_fails(ls, *m, room)
                &&& r is None ==> *final(self) == *old(self)
                &&& r matches Some(stop) ==> {
                    &&& stop == (hs.len() > room)
                    &&& final(self).files_searched == old(self).files_searched + 1
                    &&& final(self).max_results == old(self).max_results
                    &&& stop ==> final(self).total_matches == old(self).max_results && final(self).truncated
                        && final(self).matches@ == old(self).matches@
                    &&& !stop ==> final(self).total_matches == old(self).total_matches + hs.len()
                        && final(self).truncated == old(self).truncated && if hs.len() > 0 {
                        final(self).matches@.len() == old(self).matches@.len() + 1 && final(self).matches@.drop_last()
                            == old(self).matches@ && file_match_is(final(self).matches@.last(), file@, hs)
                    } else {
                        final(self).matches@ == old(self).matches@
                    }
                }
            }),
    {
        let ls = lines(chars_of(contents).as_slice());
        let ghost lv = views(ls@);
        let room: u32 = self.max_results - self.total_matches;
        let mut found: Vec<Match> = Vec::new();
        let mut stop = false;
        let mut i: usize = 0;
        while i < ls.len()
            invariant_except_break
                i <= ls@.len(),
                *self == *old(self),
                room as int == old(self).max_results - old(self).total_matches,
                lv == views(ls@),
                lv == lines_of(contents@),
                forall|t: int| 0 <= t < lv.len() ==> byte_len(#[trigger] lv[t]) <= usize::MAX,
                !stop,
                found@.len() == file_hits(lv.take(i as int), *m).len(),
                found@.len() <= room,
                forall|k: int| 0 <= k < found@.len() ==> match_is(#[trigger] found@[k], file_hits(lv.take(i as int), *m)[k]),
                forall|t: int| 0 <= t < i ==> !line_fails(*m, #[trigger] lv[t]),
            ensures
                lv == lines_of(contents@),
                lv == views(ls@),
                found@.len() <= room,
                stop ==> file_hits(lv, *m).len() > room && !search_fails(lv, *m, room as int),
                !stop ==> i == ls@.len() && found@.len() == file_hits(lv.take(i as int), *m).len() && forall|k: int|
                    0 <= k < found@.len() ==> match_is(#[trigger] found@[k], file_hits(lv.take(i as int), *m)[k]),
                !stop ==> forall|t: int| 0 <= t < i ==> !line_fails(*m, #[trigger] lv[t]),
            decreases ls@.len() - i,
        {
            let line = string_of(ls[i].as_slice());
            proof {
                assert(lv[i as int] == line@);
                assert(lv.take(i + 1).drop_last() =~= lv.take(i as int));
                assert(lv.take(i + 1).last() == line@);
            }
            let starts = match starts_in(m, line.as_str()) {
                Some(v) => v,
                None => {
                    proof {
                        assert(line_fails(*m, lv[i as int]));
                        assert(file_hits(lv.take(i as int), *m).len() <= room);
                        assert(0 <= i < lv.len());
                        assert(search_fails(lv, *m, room as int));
                        assert(search_fails(lines_of(contents@), *m, old(self).max_results - old(self).total_matches));
                    }
                    return None;
                },
            };
            let line_number = (i + 1) as u32;
            let ghost before = found@;
            let ghost prev = file_hits(lv.take(i as int), *m);
            let ghost now = file_hits(lv.take(i + 1), *m);
            proof {
                assert(now =~= prev + line_starts(*m, line@).map_values(
                    |b: int| ((i + 1) as u32, line@, (b + 1) as u32),
                ));
            }
            let mut k: usize = 0;
            while k < starts.len()
                invariant_except_break
                    i < ls@.len(),
                    lv == views(ls@),
                    line@ == lv[i as int],
                    line_number == (i + 1) as u32,
                    k <= starts@.len(),
                    starts@.len() == line_starts(*m, line@).len(),
                    forall|q: int| 0 <= q < starts@.len() ==> starts@[q] as int == #[trigger] line_starts(*m, line@)[q],
                    now == prev + line_starts(*m, line@).map_values(
                        |b: int| ((i + 1) as u32, line@, (b + 1) as u32),
                    ),
                    before.len() == prev.len(),
                    found@.len() == before.len() + k,
                    found@.len() <= room,
                    forall|q: int| 0 <= q < found@.len() ==> match_is(#[trigger] found@[q], now[q]),
                    !stop,
                ensures
                    found@.len() <= room,
                    stop ==> now.len() > room,
                    !stop ==> k == starts@.len() && found@.len() == now.len() && forall|q: int|
                        0 <= q < found@.len() ==> match_is(#[trigger] found@[q], now[q]),
                decreases starts@.len() - k,
            {
                if found.len() >= room as usize {
                    stop = true;
                    break;
                }
                found.push(Match {
                    line_number,
                    content: string_of(ls[i].as_slice()),
                    column: (starts[k] as u128 + 1) as u32,
                });
                proof {
                    let q = before.len() + k;
                    assert(now[q] == ((i + 1) as u32, line@, (starts@[k as int] + 1) as u32));
                    assert(found@[q].line_number == now[q].0);
                    assert(found@[q].content@ == now[q].1);
                    assert(found@[q].column == now[q].2);
                }
                k = k + 1;
            }
            if stop {
                proof {
                    lemma_hits_grow(lv, *m, i + 1, lv.len() as int);
                    assert(lv.take(lv.len() as int) =~= lv);
                    assert(!search_fails(lv, *m, room as int)) by {
                        if search_fails(lv, *m, room as int) {
                            let t = choose|t: int| 0 <= t < lv.len() && line_fails(*m, #[trigger] lv[t]) && file_hits(lv.take(t), *m).len() <= room;
                            if t > i {
                                lemma_hits_grow(lv, *m, i + 1, t);
                            }
                        }
                    }
                }
                break;
            }
            i = i + 1;
        }
        self.files_searched = self.files_searched + 1;
        if stop {
            self.total_matches = self.max_results;
            self.truncated = true;
            return Some(true);
        }
        proof {
            assert(lv.take(i as int) =~= lv);
            assert(!search_fails(lv, *m, room as int));
        }
        let n = found.len();
        let ghost before = self.matches@;
        self.total_matches = self.total_matches + n as u32;
        if n > 0 {
            let fm = FileMatch { file: string_of(chars_of(file).as_slice()), matches: found };
            proof {
                lemma_count_push(before, fm);
            }
            self.matches.push(fm);
        }
        Some(false)
    }

    /// The search's result.
    pub fn finish(self) -> (o: Output)
        ensures
            o.success && o.error is None,
            o.matches == self.matches,
            o.files_searched == self.files_searched,
            o.total_matches == self.total_matches,
            o.truncated == self.truncated,
    {
        Output {
            success: true,
            matches: self.matches,
            files_searched: self.files_searched,
            total_matches: self.total_matches,
            truncated: self.truncated,
            error: None,
        }
    }
}

/// The result for a base path that does not exist; an absent path is
/// shown as `<workspace_root>`.
pub fn path_not_found(path: Option<&str>) -> (o: Output)
    ensures
        !o.success && o.matches@.len() == 0 && o.files_searched == 0 && o.total_matches == 0 && !o.truncated,
        o.error matches Some(e) && e@ == "Path not found: "@ + match path {
            Some(p) => p@,
            None => "<workspace_root>"@,
        },
{
    let shown = match path {
        Some(p) => chars_of(p),
        None => chars_of("<workspace_root>"),
    };
    Output {
        success: false,
        matches: Vec::new(),
        files_searched: 0,
        total_matches: 0,
        truncated: false,
        error: Some(concat2("Path not found: ", shown.as_slice())),
    }
}

/// The glob of an optional pattern, `None` also when it is invalid.
pub fn optional_glob(pattern: Option<&str>) -> (r: Option<Glob>)
    ensures
        match pattern {
            Some(p) => (r is Some == crate::pattern::glob_compiles(p@)) && (r matches Some(g) ==> g.text() == p@),
            None => r is None,
        },
{
    match pattern {
        Some(p) => match compile_glob(p) {
            Ok(g) => Some(g),
            Err(_) => None,
        },
        None => None,
    }
}

/// A file is searched when the keep glob, if any, matches its name or
/// path, and the skip glob, if any, matches neither.
pub open spec fn selected(keep: Option<Seq<char>>, skip: Option<Seq<char>>, name: Seq<char>, path: Seq<char>) -> bool {
    &&& match keep {
        Some(g) => glob_matches(g, name) || glob_matches(g, path),
        None => true,
    }
    &&& match skip {
        Some(g) => !(glob_matches(g, name) || glob_matches(g, path)),
        None => true,
    }
}

/// The text of an optional glob.
pub open spec fn glob_text(g: Option<Glob>) -> Option<Seq<char>> {
    match g {
        Some(x) => Some(x.text()),
        None => None,
    }
}

/// Whether the file named `name` at `path` is searched.
pub fn file_selected(keep: &Option<Glob>, skip: &Option<Glob>, name: &str, path: &str) -> (b: bool)
    ensures
        b == selected(glob_text(*keep), glob_text(*skip), name@, path@),
{
    if let Some(g) = keep {
        if !glob_match(g, name) && !glob_match(g, path) {
            return false;
        }
    }
    if let Some(g) = skip {
        if glob_match(g, name) || glob_match(g, path) {
            return false;
        }
    }
    true
}

/// A file is searched only when the include glob, if any, matches its name
/// or its full path, and never when the exclude glob matches its name or
/// its full path; with no globs every file is searched.
pub proof fn law_file_selection(keep: Option<Seq<char>>, skip: Option<Seq<char>>, name: Seq<char>, path: Seq<char>)
    ensures
        skip matches Some(g) && glob_matches(g, path) ==> !selected(keep, skip, name, path),
        skip matches Some(g) && glob_matches(g, name) ==> !selected(keep, skip, name, path),
        keep matches Some(g) && !glob_matches(g, name) && !glob_matches(g, path) ==> !selected(
            keep,
            skip,
            name,
            path,
        ),
        selected(keep, skip, name, path) <== (keep is None || glob_matches(keep->0, name) || glob_matches(
            keep->0,
            path,
        )) && (skip is None || !(glob_matches(skip->0, name) || glob_matches(skip->0, path))),
        selected(None, None, name, path),
{
}

} // verus!
