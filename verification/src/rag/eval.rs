//! Groundedness of answers: how many sentences carry a `[source N]`
//! citation, which cited source numbers exist, and what to do with an
//! answer that falls short.
use vstd::prelude::*;
use crate::pattern::{
    captures, compile, is_match, regex_captures, regex_compiles, regex_is_match, regex_split, split,
    RegexPattern,
};
use crate::text::{
    byte_len, byte_len_exceeds, chars_of, parse_unsigned, parse_unsigned_max, string_of, strs,
    trim, trim_of,
};

verus! {

/// The pattern of a citation.
pub open spec fn source_ref() -> Seq<char> {
    "\\[source\\s+\\d+\\]"@
}

/// The pattern of a citation, capturing its number.
pub open spec fn source_num() -> Seq<char> {
    "\\[source\\s+(\\d+)\\]"@
}

/// The pattern that ends a sentence.
pub open spec fn sentence_end() -> Seq<char> {
    "[.!?]\\s+"@
}

/// Trimmed pieces longer than ten bytes.
pub open spec fn long_pieces(ps: Seq<Seq<char>>) -> Seq<Seq<char>>
    decreases ps.len(),
{
    if ps.len() == 0 {
        seq![]
    } else {
        let rest = long_pieces(ps.drop_last());
        let t = trim(ps.last());
        if byte_len(t) > 10 {
            rest.push(t)
        } else {
            rest
        }
    }
}

/// The sentences of `text`.
pub open spec fn sentences_of(text: Seq<char>) -> Seq<Seq<char>> {
    long_pieces(regex_split(sentence_end(), text))
}

/// How many of `ss` cite a source.
pub open spec fn cited_count(ss: Seq<Seq<char>>) -> nat
    decreases ss.len(),
{
    if ss.len() == 0 {
        0
    } else {
        cited_count(ss.drop_last()) + if regex_is_match(source_ref(), ss.last()) {
            1nat
        } else {
            0nat
        }
    }
}

/// Valid and invalid citation numbers among the captures `cs`.
pub open spec fn tally(cs: Seq<Option<Seq<char>>>, chunk_count: nat) -> (nat, Seq<nat>)
    decreases cs.len(),
{
    if cs.len() == 0 {
        (0, seq![])
    } else {
        let r = tally(cs.drop_last(), chunk_count);
        match cs.last() {
            Some(t) => match parse_unsigned(t, usize::MAX as nat) {
                Some(n) => if 1 <= n <= chunk_count {
                    (r.0 + 1, r.1)
                } else {
                    (r.0, r.1.push(n))
                },
                None => r,
            },
            None => r,
        }
    }
}

/// Split `text` into sentences at `.`, `!` or `?` followed by whitespace,
/// trimmed, keeping those longer than ten bytes. Empty when the sentence
/// pattern fails to compile.
pub fn split_sentences(text: &str) -> (r: Vec<String>)
    ensures
        regex_compiles(sentence_end()) ==> strs(r@) == sentences_of(text@),
        !regex_compiles(sentence_end()) ==> r@.len() == 0,
{
    let p = match compile("[.!?]\\s+") {
        Some(p) => p,
        None => {
            return Vec::new();
        },
    };
    let pieces = split(&p, text);
    let ghost ps = strs(pieces@);
    let mut out: Vec<String> = Vec::new();
    let mut i: usize = 0;
    while i < pieces.len()
        invariant
            i <= pieces@.len(),
            ps == strs(pieces@),
            strs(out@) == long_pieces(ps.take(i as int)),
        decreases pieces@.len() - i,
    {
        proof {
            assert(ps.take(i + 1).drop_last() =~= ps.take(i as int));
            assert(ps.take(i + 1).last() == pieces@[i as int]@);
        }
        let t = trim_of(chars_of(pieces[i].as_str()).as_slice());
        if byte_len_exceeds(t.as_slice(), 10) {
            let ghost before = out@;
            let ts = string_of(t.as_slice());
            out.push(ts);
            proof {
                assert(strs(out@) =~= strs(before).push(t@));
            }
        }
        i = i + 1;
    }
    proof {
        assert(ps.take(i as int) =~= ps);
    }
    out
}

/// The sentences of `answer` that cite a source, and all its sentences.
/// The groundedness score is their ratio, 1 when there is no sentence.
pub fn groundedness_counts(answer: &str) -> (r: (usize, usize))
    ensures
        regex_compiles(sentence_end()) && regex_compiles(source_ref()) ==> r.1 == sentences_of(
            answer@,
        ).len() && r.0 == cited_count(sentences_of(answer@)),
        r.0 <= r.1,
{
    let sentences = split_sentences(answer);
    let p = match compile("\\[source\\s+\\d+\\]") {
        Some(p) => p,
        None => {
            return (0, sentences.len());
        },
    };
    let ghost ss = strs(sentences@);
    let mut cited: usize = 0;
    let mut i: usize = 0;
    while i < sentences.len()
        invariant
            i <= sentences@.len(),
            ss == strs(sentences@),
            cited == cited_count(ss.take(i as int)),
            cited <= i,
            p.text() == source_ref(),
        decreases sentences@.len() - i,
    {
        proof {
            assert(ss.take(i + 1).drop_last() =~= ss.take(i as int));
            assert(ss.take(i + 1).last() == sentences@[i as int]@);
        }
        if is_match(&p, sentences[i].as_str()) {
            cited = cited + 1;
        }
        i = i + 1;
    }
    proof {
        assert(ss.take(i as int) =~= ss);
    }
    (cited, sentences.len())
}

/// Citations of `answer` whose number lies in `1..=chunk_count`, and the
/// numbers of the others, in order. Nothing when the citation pattern
/// fails to compile.
pub fn verify_citation_refs(answer: &str, chunk_count: usize) -> (r: (usize, Vec<usize>))
    ensures
        regex_compiles(source_num()) ==> ({
            let t = tally(regex_captures(source_num(), answer@), chunk_count as nat);
            r.0 == t.0 && r.1@.len() == t.1.len() && forall|j: int|
                0 <= j < t.1.len() ==> r.1@[j] == #[trigger] t.1[j]
        }),
        !regex_compiles(source_num()) ==> r.0 == 0 && r.1@.len() == 0,
{
    let p = match compile("\\[source\\s+(\\d+)\\]") {
        Some(p) => p,
        None => {
            return (0, Vec::new());
        },
    };
    let caps = captures(&p, answer);
    let ghost cs = regex_captures(source_num(), answer@);
    let mut valid: usize = 0;
    let mut invalid: Vec<usize> = Vec::new();
    let mut i: usize = 0;
    while i < caps.len()
        invariant
            i <= caps@.len(),
            p.text() == source_num(),
            cs == regex_captures(source_num(), answer@),
            caps@.len() == cs.len(),
            forall|k: int|
                0 <= k < caps@.len() ==> match #[trigger] cs[k] {
                    Some(t) => caps@[k] matches Some(s) && s@ == t,
                    None => caps@[k] is None,
                },
            valid <= i,
            ({
                let t = tally(cs.take(i as int), chunk_count as nat);
                valid == t.0 && invalid@.len() == t.1.len() && forall|j: int|
                    0 <= j < t.1.len() ==> invalid@[j] == #[trigger] t.1[j]
            }),
        decreases caps@.len() - i,
    {
        proof {
            assert(cs.take(i + 1).drop_last() =~= cs.take(i as int));
            assert(cs.take(i + 1).last() == cs[i as int]);
        }
        if let Some(s) = &caps[i] {
            let sc = chars_of(s.as_str());
            match parse_unsigned_max(sc.as_slice(), usize::MAX as u64) {
                Some(n) => {
                    let n = n as usize;
                    if 1 <= n && n <= chunk_count {
                        valid = valid + 1;
                    } else {
                        invalid.push(n);
                    }
                },
                None => {},
            }
        }
        i = i + 1;
    }
    proof {
        assert(cs.take(i as int) =~= cs);
    }
    (valid, invalid)
}

/// What to do with an answer after inspecting it.
#[derive(Debug, Clone, Copy, PartialEq, Eq, Structural)]
pub enum VerdictKind {
    /// The answer meets the thresholds.
    Accept,
    /// Below the thresholds on a first attempt: retry with a stronger model.
    RetryWithUpgrade,
    /// Below the thresholds on a retry: fall back to "insufficient context".
    Reject,
}

/// The verdict for an answer, given whether its groundedness reaches the
/// minimum, how many invalid citations it has, the most that are allowed,
/// and whether it is already a retry.
pub fn verdict(grounded_enough: bool, invalid_refs: usize, max_invalid_refs: usize, is_retry: bool) -> (v: VerdictKind)
    ensures
        (grounded_enough && invalid_refs <= max_invalid_refs) ==> v == VerdictKind::Accept,
        !(grounded_enough && invalid_refs <= max_invalid_refs) && is_retry ==> v == VerdictKind::Reject,
        !(grounded_enough && invalid_refs <= max_invalid_refs) && !is_retry ==> v
            == VerdictKind::RetryWithUpgrade,
{
    if grounded_enough && invalid_refs <= max_invalid_refs {
        return VerdictKind::Accept;
    }
    if is_retry {
        VerdictKind::Reject
    } else {
        VerdictKind::RetryWithUpgrade
    }
}

} // verus!
