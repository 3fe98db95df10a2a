//! Regular expressions and glob patterns, compiled by their crates: each
//! compiled form keeps the text it came from, and what the crates compute
//! on it is named by functions of that text.
use vstd::prelude::*;
use crate::text::strs;

verus! {

#[verifier::external_type_specification]
#[verifier::external_body]
pub struct ExRegex(regex::Regex);

/// A compiled regular expression together with the pattern it came from.
#[derive(Debug)]
pub struct RegexPattern {
    source: String,
    re: regex::Regex,
}

impl RegexPattern {
    /// The pattern text.
    pub closed spec fn text(self) -> Seq<char> {
        self.source@
    }
}

/// Whether `pattern` is a valid regular expression (`Regex::new` succeeds).
pub uninterp spec fn regex_compiles(pattern: Seq<char>) -> bool;

/// Whether `pattern` matches somewhere in `hay` (`Regex::is_match`).
pub uninterp spec fn regex_is_match(pattern: Seq<char>, hay: Seq<char>) -> bool;

/// The pieces of `hay` between matches of `pattern` (`Regex::split`).
pub uninterp spec fn regex_split(pattern: Seq<char>, hay: Seq<char>) -> Seq<Seq<char>>;

/// For each successive match of `pattern` in `hay`, the text of its first
/// capture group when that group took part (`Regex::captures_iter`).
pub uninterp spec fn regex_captures(pattern: Seq<char>, hay: Seq<char>) -> Seq<Option<Seq<char>>>;

/// `Regex::new`: the compiled pattern, or `None` when the pattern is not a
/// valid regular expression. Nothing is claimed about which patterns are
/// valid beyond naming that as `regex_compiles`.
#[verifier::external_body]
pub(crate) fn compile(pattern: &str) -> (r: Option<RegexPattern>)
    ensures
        r is Some == regex_compiles(pattern@),
        r matches Some(p) ==> p.text() == pattern@,
{
    match regex::Regex::new(pattern) {
        Ok(re) => Some(RegexPattern { source: pattern.to_string(), re }),
        Err(_) => None,
    }
}

/// `Regex::is_match`, named `regex_is_match` of the pattern and haystack.
#[verifier::external_body]
pub(crate) fn is_match(p: &RegexPattern, hay: &str) -> (b: bool)
    ensures
        b == regex_is_match(p.text(), hay@),
{
    p.re.is_match(hay)
}

/// `Regex::split`, each piece copied out; named `regex_split`.
#[verifier::external_body]
pub(crate) fn split(p: &RegexPattern, hay: &str) -> (r: Vec<String>)
    ensures
        strs(r@) == regex_split(p.text(), hay@),
{
    p.re.split(hay).map(|s| s.to_string()).collect()
}

/// `Regex::captures_iter`, the first group of each match copied out;
/// named `regex_captures`.
#[verifier::external_body]
pub(crate) fn captures(p: &RegexPattern, hay: &str) -> (r: Vec<Option<String>>)
    ensures
        r@.len() == regex_captures(p.text(), hay@).len(),
        forall|i: int|
            0 <= i < r@.len() ==> match #[trigger] regex_captures(p.text(), hay@)[i] {
                Some(t) => r@[i] matches Some(s) && s@ == t,
                None => r@[i] is None,
            },
{
    p.re.captures_iter(hay).map(|c| c.get(1).map(|m| m.as_str().to_string())).collect()
}

/// The byte offsets at which the successive matches of `pattern` in `hay`
/// start (`Regex::find_iter`).
pub uninterp spec fn regex_match_starts(pattern: Seq<char>, hay: Seq<char>) -> Seq<nat>;

/// `Regex::find_iter`, the start of each match; named `regex_match_starts`.
#[verifier::external_body]
pub(crate) fn match_starts(p: &RegexPattern, hay: &str) -> (r: Vec<usize>)
    ensures
        r@.len() == regex_match_starts(p.text(), hay@).len(),
        forall|i: int| 0 <= i < r@.len() ==> r@[i] as nat == #[trigger] regex_match_starts(p.text(), hay@)[i],
{
    p.re.find_iter(hay).map(|m| m.start()).collect()
}

/// The characters that have a meaning in a regular expression.
pub open spec fn meta_char(c: char) -> bool {
    c == '\\' || c == '.' || c == '+' || c == '*' || c == '?' || c == '(' || c == ')' || c == '|' || c
        == '[' || c == ']' || c == '{' || c == '}' || c == '^' || c == '$' || c == '#' || c == '&' || c
        == '-' || c == '~'
}

/// `text` with a backslash before each meta character.
pub open spec fn escaped(text: Seq<char>) -> Seq<char>
    decreases text.len(),
{
    if text.len() == 0 {
        seq![]
    } else {
        let c = text.last();
        escaped(text.drop_last()) + if meta_char(c) {
            seq!['\\', c]
        } else {
            seq![c]
        }
    }
}

/// Every meta character of `text` preceded by a backslash, every other
/// character kept: the escaping that `regex::escape` performs.
pub(crate) fn escape(text: &str) -> (r: String)
    ensures
        r@ == escaped(text@),
{
    let cs = crate::text::chars_of(text);
    let mut out: Vec<char> = Vec::new();
    let mut i: usize = 0;
    while i < cs.len()
        invariant
            i <= cs@.len(),
            cs@ == text@,
            out@ == escaped(cs@.take(i as int)),
        decreases cs@.len() - i,
    {
        let c = cs[i];
        proof {
            assert(cs@.take(i + 1).drop_last() =~= cs@.take(i as int));
            assert(cs@.take(i + 1).last() == c);
        }
        if c == '\\' || c == '.' || c == '+' || c == '*' || c == '?' || c == '(' || c == ')' || c == '|'
            || c == '[' || c == ']' || c == '{' || c == '}' || c == '^' || c == '$' || c == '#' || c == '&'
            || c == '-' || c == '~' {
            out.push('\\');
        }
        out.push(c);
        proof {
            assert(out@ =~= escaped(cs@.take(i + 1)));
        }
        i = i + 1;
    }
    proof {
        assert(cs@.take(i as int) =~= cs@);
    }
    crate::text::string_of(out.as_slice())
}

#[verifier::external_type_specification]
#[verifier::external_body]
pub struct ExGlobPattern(glob::Pattern);

/// A compiled glob pattern together with the text it came from.
#[derive(Debug)]
pub struct Glob {
    source: String,
    pattern: glob::Pattern,
}

impl Glob {
    /// The pattern text.
    pub closed spec fn text(self) -> Seq<char> {
        self.source@
    }
}

/// Whether `pattern` is a valid glob (`glob::Pattern::new` succeeds).
pub uninterp spec fn glob_compiles(pattern: Seq<char>) -> bool;

/// Whether the glob `pattern` matches all of `s` under the default
/// options (`glob::Pattern::matches`).
pub uninterp spec fn glob_matches(pattern: Seq<char>, s: Seq<char>) -> bool;

/// The message of the error `glob::Pattern::new` gives for an invalid
/// `pattern` (its `Display`).
pub uninterp spec fn glob_error(pattern: Seq<char>) -> Seq<char>;

/// `glob::Pattern::new`: the compiled glob, or the error's message when
/// the pattern is invalid; which globs are valid is named
/// `glob_compiles`, the message `glob_error`.
#[verifier::external_body]
pub(crate) fn compile_glob(pattern: &str) -> (r: Result<Glob, String>)
    ensures
        r is Ok == glob_compiles(pattern@),
        r matches Ok(g) ==> g.text() == pattern@,
        r matches Err(e) ==> e@ == glob_error(pattern@),
{
    match glob::Pattern::new(pattern) {
        Ok(g) => Ok(Glob { source: pattern.to_string(), pattern: g }),
        Err(e) => Err(e.to_string()),
    }
}

/// `glob::Pattern::matches`, named `glob_matches` of the glob's text and
/// the string.
#[verifier::external_body]
pub(crate) fn glob_match(g: &Glob, s: &str) -> (b: bool)
    ensures
        b == glob_matches(g.text(), s@),
{
    g.pattern.matches(s)
}

} // verus!
