//! Navigating markdown text: headings, sections, tables and searches.
use vstd::prelude::*;
use crate::text::{
    chars_of, contains, contains_seq, eq_str, extend, extend_str, join, join_with, lines, lines_of,
    lower, lowercase_chars, slice_copy, string_from, string_of, trim, trim_of, trim_start,
    trim_start_of, views,
};

verus! {

/// A heading of a markdown document.
#[derive(Debug)]
pub struct Heading {
    pub level: u8,
    pub text: String,
    pub line: usize,
}

/// A line that matched a search.
#[derive(Debug)]
pub struct SearchMatch {
    pub line: usize,
    pub text: String,
}

/// The answer to a markdown query.
#[derive(Debug)]
pub struct Output {
    pub success: bool,
    pub headings: Option<Vec<Heading>>,
    pub section: Option<String>,
    pub tables: Option<Vec<String>>,
    pub matches: Option<Vec<SearchMatch>>,
    pub error: Option<String>,
}

/// Index of the first character at or after `k` that is not `'#'`.
pub open spec fn hashes_from(t: Seq<char>, k: int) -> int
    decreases t.len() - k,
{
    if 0 <= k < t.len() && t[k] == '#' {
        hashes_from(t, k + 1)
    } else {
        k
    }
}

/// The line starts, after leading whitespace, with `'#'`.
pub open spec fn hash_line(line: Seq<char>) -> bool {
    let t = trim_start(line);
    t.len() > 0 && t[0] == '#'
}

/// Level and text of a heading line of level 1 to 6 with non-empty text.
pub open spec fn heading_of(line: Seq<char>) -> Option<(nat, Seq<char>)> {
    let t = trim_start(line);
    let lv = hashes_from(t, 0);
    if !hash_line(line) || lv > 6 {
        None
    } else {
        let text = trim(t.skip(lv));
        if text.len() == 0 {
            None
        } else {
            Some((lv as nat, text))
        }
    }
}

/// Headings of the lines `ls`: level, text and line number from 1.
pub open spec fn headings_of(ls: Seq<Seq<char>>) -> Seq<(nat, Seq<char>, nat)>
    decreases ls.len(),
{
    if ls.len() == 0 {
        seq![]
    } else {
        let rest = headings_of(ls.drop_last());
        match heading_of(ls.last()) {
            Some(h) => rest.push((h.0, h.1, ls.len())),
            None => rest,
        }
    }
}

/// For a line starting with `'#'`: its count of leading `'#'` taken
/// modulo 256, and the trimmed text after that many characters.
pub open spec fn section_mark(line: Seq<char>) -> (nat, Seq<char>) {
    let t = trim_start(line);
    let lv = (hashes_from(t, 0) % 256) as nat;
    (lv, trim(t.skip(lv as int)))
}

/// Scan `ls` from line `i` for the section whose heading text contains
/// `q` (both lowercased); `start` holds the open section's first line and
/// level. The result is the section's first line and the line after it.
pub open spec fn scan_section(ls: Seq<Seq<char>>, q: Seq<char>, i: int, start: Option<(int, nat)>) -> Option<(int, int)>
    decreases ls.len() - i,
{
    if i < 0 || i >= ls.len() {
        match start {
            Some(s) => Some((s.0, ls.len() as int)),
            None => None,
        }
    } else if !hash_line(ls[i]) {
        scan_section(ls, q, i + 1, start)
    } else {
        let m = section_mark(ls[i]);
        match start {
            Some(s) => if m.0 <= s.1 {
                Some((s.0, i))
            } else {
                scan_section(ls, q, i + 1, start)
            },
            None => if contains(lower(m.1), q) {
                scan_section(ls, q, i + 1, Some((i, m.0)))
            } else {
                scan_section(ls, q, i + 1, None)
            },
        }
    }
}

/// The section under the first heading whose text contains `heading`
/// (ignoring case), up to the next heading of the same or a higher level.
pub open spec fn section_of(content: Seq<char>, heading: Seq<char>) -> Option<Seq<char>> {
    let ls = lines_of(content);
    match scan_section(ls, lower(heading), 0, None) {
        Some(r) => Some(join(ls.subrange(r.0, r.1), "\n"@)),
        None => None,
    }
}

/// The line starts, after leading whitespace, with `'|'`.
pub open spec fn table_line(line: Seq<char>) -> bool {
    let t = trim_start(line);
    t.len() > 0 && t[0] == '|'
}

/// Tables closed so far, rows of the open table, and whether one is open.
pub open spec fn tables_acc(ls: Seq<Seq<char>>) -> (Seq<Seq<char>>, Seq<Seq<char>>, bool)
    decreases ls.len(),
{
    if ls.len() == 0 {
        (seq![], seq![], false)
    } else {
        let a = tables_acc(ls.drop_last());
        let l = ls.last();
        if table_line(l) {
            (a.0, a.1.push(l), true)
        } else if a.2 {
            if a.1.len() > 0 {
                (a.0.push(join(a.1, "\n"@)), seq![], false)
            } else {
                (a.0, a.1, false)
            }
        } else {
            a
        }
    }
}

/// Each run of consecutive table lines, joined with newlines.
pub open spec fn tables_of(content: Seq<char>) -> Seq<Seq<char>> {
    let a = tables_acc(lines_of(content));
    if a.1.len() > 0 {
        a.0.push(join(a.1, "\n"@))
    } else {
        a.0
    }
}

/// Lines whose lowercase form contains `q`: line number from 1 and text.
pub open spec fn matches_of(ls: Seq<Seq<char>>, q: Seq<char>) -> Seq<(nat, Seq<char>)>
    decreases ls.len(),
{
    if ls.len() == 0 {
        seq![]
    } else {
        let rest = matches_of(ls.drop_last(), q);
        if contains(lower(ls.last()), q) {
            rest.push((ls.len(), ls.last()))
        } else {
            rest
        }
    }
}

/// At most the first 100 lines matching `term`, ignoring case.
pub open spec fn search_of(content: Seq<char>, term: Seq<char>) -> Seq<(nat, Seq<char>)> {
    let m = matches_of(lines_of(content), lower(term));
    if m.len() <= 100 {
        m
    } else {
        m.take(100)
    }
}

fn count_hashes(t: &[char]) -> (k: usize)
    ensures
        k == hashes_from(t@, 0),
        k <= t@.len(),
{
    let mut k: usize = 0;
    while k < t.len() && t[k] == '#'
        invariant
            k <= t@.len(),
            hashes_from(t@, 0) == hashes_from(t@, k as int),
        decreases t@.len() - k,
    {
        k = k + 1;
    }
    k
}

fn is_hash_line(line: &[char]) -> (r: (bool, Vec<char>))
    ensures
        r.0 == hash_line(line@),
        r.1@ == trim_start(line@),
{
    let t = trim_start_of(line);
    (t.len() > 0 && t[0] == '#', t)
}

/// The headings of `content`, in order.
pub fn list_headings(content: &str) -> (r: Vec<Heading>)
    ensures
        r@.len() == headings_of(lines_of(content@)).len(),
        forall|j: int|
            0 <= j < r@.len() ==> {
                let h = #[trigger] headings_of(lines_of(content@))[j];
                r@[j].level == h.0 && r@[j].text@ == h.1 && r@[j].line == h.2
            },
{
    let ls = lines(chars_of(content).as_slice());
    let ghost lv = views(ls@);
    let mut out: Vec<Heading> = Vec::new();
    let mut i: usize = 0;
    while i < ls.len()
        invariant
            i <= ls@.len(),
            lv == views(ls@),
            lv == lines_of(content@),
            out@.len() == headings_of(lv.take(i as int)).len(),
            forall|j: int|
                0 <= j < out@.len() ==> {
                    let h = #[trigger] headings_of(lv.take(i as int))[j];
                    out@[j].level == h.0 && out@[j].text@ == h.1 && out@[j].line == h.2
                },
        decreases ls@.len() - i,
    {
        proof {
            assert(lv.take(i + 1).drop_last() =~= lv.take(i as int));
            assert(lv.take(i + 1).last() == ls@[i as int]@);
        }
        let (is_hash, t) = is_hash_line(ls[i].as_slice());
        if is_hash {
            let level = count_hashes(t.as_slice());
            if level <= 6 {
                let rest = slice_copy(t.as_slice(), level, t.len());
                let text = trim_of(rest.as_slice());
                proof {
                    assert(rest@ =~= t@.skip(level as int));
                }
                if text.len() > 0 {
                    out.push(Heading { level: level as u8, text: string_of(text.as_slice()), line: i + 1 });
                }
            }
        }
        i = i + 1;
    }
    proof {
        assert(lv.take(i as int) =~= lv);
    }
    out
}

/// The section under the first heading whose text contains `heading_text`,
/// ignoring case, up to the next heading of the same or a higher level.
pub fn get_section(content: &str, heading_text: &str) -> (r: Option<String>)
    ensures
        match section_of(content@, heading_text@) {
            Some(sec) => r matches Some(x) && x@ == sec,
            None => r is None,
        },
{
    let ls = lines(chars_of(content).as_slice());
    let ghost lv = views(ls@);
    let q = lowercase_chars(chars_of(heading_text).as_slice());
    let mut start: Option<(usize, usize)> = None;
    let mut i: usize = 0;
    while i < ls.len()
        invariant
            i <= ls@.len(),
            lv == views(ls@),
            lv == lines_of(content@),
            q@ == lower(heading_text@),
            match start {
                Some(s) => s.0 < i && s.1 < 256,
                None => true,
            },
            scan_section(lv, q@, 0, None) == scan_section(
                lv,
                q@,
                i as int,
                match start {
                    Some(s) => Some((s.0 as int, s.1 as nat)),
                    None => None,
                },
            ),
        decreases ls@.len() - i,
    {
        let (is_hash, t) = is_hash_line(ls[i].as_slice());
        proof {
            assert(lv[i as int] == ls@[i as int]@);
        }
        if is_hash {
            let count = count_hashes(t.as_slice());
            let level = count % 256;
            let rest = slice_copy(t.as_slice(), level, t.len());
            proof {
                assert(rest@ =~= t@.skip(level as int));
            }
            match start {
                Some(s) => {
                    if level <= s.1 {
                        let part = crate::text::copy_range(&ls, s.0, i);
                        let joined = join_with(part.as_slice(), chars_of("\n").as_slice());
                        return Some(string_of(joined.as_slice()));
                    }
                },
                None => {
                    let text = trim_of(rest.as_slice());
                    let lt = lowercase_chars(text.as_slice());
                    if contains_seq(lt.as_slice(), q.as_slice()) {
                        start = Some((i, level));
                    }
                },
            }
        }
        i = i + 1;
    }
    match start {
        Some(s) => {
            let part = crate::text::copy_range(&ls, s.0, ls.len());
            let joined = join_with(part.as_slice(), chars_of("\n").as_slice());
            Some(string_of(joined.as_slice()))
        },
        None => None,
    }
}

/// Each run of consecutive table lines of `content`, joined with newlines.
pub fn list_tables(content: &str) -> (r: Vec<String>)
    ensures
        crate::text::strs(r@) == tables_of(content@),
{
    let ls = lines(chars_of(content).as_slice());
    let ghost lv = views(ls@);
    let nl = chars_of("\n");
    let mut tables: Vec<String> = Vec::new();
    let mut current: Vec<Vec<char>> = Vec::new();
    let mut in_table = false;
    let mut i: usize = 0;
    while i < ls.len()
        invariant
            i <= ls@.len(),
            lv == views(ls@),
            lv == lines_of(content@),
            nl@ == "\n"@,
            tables_acc(lv.take(i as int)) == (crate::text::strs(tables@), views(current@), in_table),
        decreases ls@.len() - i,
    {
        proof {
            assert(lv.take(i + 1).drop_last() =~= lv.take(i as int));
            assert(lv.take(i + 1).last() == ls@[i as int]@);
        }
        let t = trim_start_of(ls[i].as_slice());
        if t.len() > 0 && t[0] == '|' {
            in_table = true;
            let ghost before = current@;
            current.push(ls[i].clone());
            proof {
                assert(views(current@) =~= views(before).push(ls@[i as int]@));
            }
        } else if in_table {
            if current.len() > 0 {
                let j = join_with(current.as_slice(), nl.as_slice());
                let ghost before = tables@;
                let js = string_of(j.as_slice());
                tables.push(js);
                current = Vec::new();
                proof {
                    assert(crate::text::strs(tables@) =~= crate::text::strs(before).push(j@));
                    assert(views(current@) =~= Seq::<Seq<char>>::empty());
                }
            }
            in_table = false;
        }
        i = i + 1;
    }
    proof {
        assert(lv.take(i as int) =~= lv);
    }
    if current.len() > 0 {
        let j = join_with(current.as_slice(), nl.as_slice());
        let ghost before = tables@;
        let js = string_of(j.as_slice());
        tables.push(js);
        proof {
            assert(crate::text::strs(tables@) =~= crate::text::strs(before).push(j@));
        }
    }
    tables
}

proof fn lemma_matches_prefix(ls: Seq<Seq<char>>, q: Seq<char>, i: int, j: int)
    requires
        0 <= i <= j <= ls.len(),
    ensures
        matches_of(ls.take(i), q).len() <= matches_of(ls.take(j), q).len(),
        matches_of(ls.take(j), q).take(matches_of(ls.take(i), q).len() as int) == matches_of(
            ls.take(i),
            q,
        ),
    decreases j - i,
{
    if i < j {
        lemma_matches_prefix(ls, q, i, j - 1);
        assert(ls.take(j).drop_last() =~= ls.take(j - 1));
        let a = matches_of(ls.take(i), q);
        let b = matches_of(ls.take(j - 1), q);
        let c = matches_of(ls.take(j), q);
        assert(c.take(a.len() as int) =~= b.take(a.len() as int));
    } else {
        let a = matches_of(ls.take(i), q);
        assert(a.take(a.len() as int) =~= a);
    }
}

/// The first 100 lines of `content` that contain `term`, ignoring case.
pub fn search_content(content: &str, term: &str) -> (r: Vec<SearchMatch>)
    ensures
        r@.len() == search_of(content@, term@).len(),
        forall|j: int|
            0 <= j < r@.len() ==> {
                let m = #[trigger] search_of(content@, term@)[j];
                r@[j].line == m.0 && r@[j].text@ == m.1
            },
{
    let ls = lines(chars_of(content).as_slice());
    let ghost lv = views(ls@);
    let q = lowercase_chars(chars_of(term).as_slice());
    let mut out: Vec<SearchMatch> = Vec::new();
    let mut i: usize = 0;
    while i < ls.len() && out.len() < 100
        invariant
            i <= ls@.len(),
            lv == views(ls@),
            lv == lines_of(content@),
            q@ == lower(term@),
            out@.len() == matches_of(lv.take(i as int), q@).len(),
            out@.len() <= 100,
            forall|j: int|
                0 <= j < out@.len() ==> {
                    let m = #[trigger] matches_of(lv.take(i as int), q@)[j];
                    out@[j].line == m.0 && out@[j].text@ == m.1
                },
        decreases ls@.len() - i,
    {
        proof {
            assert(lv.take(i + 1).drop_last() =~= lv.take(i as int));
            assert(lv.take(i + 1).last() == ls@[i as int]@);
        }
        let lc = lowercase_chars(ls[i].as_slice());
        if contains_seq(lc.as_slice(), q.as_slice()) {
            out.push(SearchMatch { line: i + 1, text: string_of(ls[i].as_slice()) });
        }
        i = i + 1;
    }
    proof {
        lemma_matches_prefix(lv, q@, i as int, lv.len() as int);
        assert(lv.take(lv.len() as int) =~= lv);
        let full = matches_of(lv, q@);
        let part = matches_of(lv.take(i as int), q@);
        if i < lv.len() {
            assert(out@.len() == 100);
        } else {
            assert(lv.take(i as int) =~= lv);
        }
        assert forall|j: int| 0 <= j < out@.len() implies #[trigger] search_of(content@, term@)[j] == part[j] by {
            assert(full.take(part.len() as int)[j] == part[j]);
        }
    }
    out
}

/// `hs` are exactly the headings `spec`, in order: level, text and line.
pub open spec fn headings_are(hs: Seq<Heading>, spec: Seq<(nat, Seq<char>, nat)>) -> bool {
    &&& hs.len() == spec.len()
    &&& forall|j: int|
        0 <= j < hs.len() ==> {
            let h = #[trigger] spec[j];
            hs[j].level == h.0 && hs[j].text@ == h.1 && hs[j].line == h.2
        }
}

/// `ms` are exactly the matches `spec`, in order: line and text.
pub open spec fn matches_are(ms: Seq<SearchMatch>, spec: Seq<(nat, Seq<char>)>) -> bool {
    &&& ms.len() == spec.len()
    &&& forall|j: int|
        0 <= j < ms.len() ==> {
            let m = #[trigger] spec[j];
            ms[j].line == m.0 && ms[j].text@ == m.1
        }
}

/// Answer `action` on the markdown `contents`; `filter` is the heading
/// text for `get_section` and the search term for `search_content` (empty
/// when absent). Only the field the action asks for is present.
pub fn answer(contents: &str, action: &str, filter: Option<&str>) -> (r: Output)
    ensures
        ({
            let f = match filter {
                Some(x) => x@,
                None => Seq::<char>::empty(),
            };
            if action@ == "list_headings"@ {
                &&& r.success
                &&& r.headings matches Some(h) && headings_are(h@, headings_of(lines_of(contents@)))
                &&& r.section is None && r.tables is None && r.matches is None && r.error is None
            } else if action@ == "get_section"@ {
                &&& r.headings is None && r.tables is None && r.matches is None
                &&& match section_of(contents@, f) {
                    Some(sec) => r.success && (r.section matches Some(x) && x@ == sec)
                        && r.error is None,
                    None => !r.success && r.section is None && (r.error matches Some(e) && e@
                        == "Section not found: "@ + f),
                }
            } else if action@ == "list_tables"@ {
                &&& r.success
                &&& r.tables matches Some(t) && crate::text::strs(t@) == tables_of(contents@)
                &&& r.headings is None && r.section is None && r.matches is None && r.error is None
            } else if action@ == "search_content"@ {
                &&& r.success
                &&& r.matches matches Some(m) && matches_are(m@, search_of(contents@, f))
                &&& r.headings is None && r.section is None && r.tables is None && r.error is None
            } else {
                &&& !r.success
                &&& r.headings is None && r.section is None && r.tables is None && r.matches is None
                &&& r.error matches Some(e) && e@ == "Unknown action: "@ + action@
                    + ". Use: list_headings, get_section, list_tables, search_content"@
            }
        }),
{
    let f: &str = match filter {
        Some(x) => x,
        None => "",
    };
    proof {
        reveal_strlit("");
        assert(f@ =~= match filter {
            Some(x) => x@,
            None => Seq::<char>::empty(),
        });
    }
    if eq_str(action, "list_headings") {
        Output {
            success: true,
            headings: Some(list_headings(contents)),
            section: None,
            tables: None,
            matches: None,
            error: None,
        }
    } else if eq_str(action, "get_section") {
        match get_section(contents, f) {
            Some(sec) => Output {
                success: true,
                headings: None,
                section: Some(sec),
                tables: None,
                matches: None,
                error: None,
            },
            None => {
                let mut e = chars_of("Section not found: ");
                extend_str(&mut e, f);
                Output {
                    success: false,
                    headings: None,
                    section: None,
                    tables: None,
                    matches: None,
                    error: Some(string_of(e.as_slice())),
                }
            },
        }
    } else if eq_str(action, "list_tables") {
        Output {
            success: true,
            headings: None,
            section: None,
            tables: Some(list_tables(contents)),
            matches: None,
            error: None,
        }
    } else if eq_str(action, "search_content") {
        Output {
            success: true,
            headings: None,
            section: None,
            tables: None,
            matches: Some(search_content(contents, f)),
            error: None,
        }
    } else {
        let mut e = chars_of("Unknown action: ");
        extend_str(&mut e, action);
        extend_str(&mut e, ". Use: list_headings, get_section, list_tables, search_content");
        Output {
            success: false,
            headings: None,
            section: None,
            tables: None,
            matches: None,
            error: Some(string_of(e.as_slice())),
        }
    }
}

/// The `markdown_query` tool.
pub struct MarkdownQuery;

impl MarkdownQuery {
    /// The tool's name.
    pub fn name() -> (r: &'static str)
        ensures
            r@ == "markdown_query"@,
    {
        "markdown_query"
    }

    /// The tool's description.
    pub fn description() -> (r: &'static str)
        ensures
            r@ == "Navigate markdown files: list headings, get sections, find tables, search content"@,
    {
        "Navigate markdown files: list headings, get sections, find tables, search content"
    }
}

/// Law: a search reports at most 100 lines.
pub proof fn law_search_capped(content: Seq<char>, term: Seq<char>)
    ensures
        search_of(content, term).len() <= 100,
{
}

} // verus!
