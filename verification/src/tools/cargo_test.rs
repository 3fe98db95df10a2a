//! Reading the summary and the failures out of `cargo test` output.
use vstd::prelude::*;
use crate::text::{
    chars_of, ends_with, ends_with_str, extend_str, find_first, first_occ, is_ascii_digit,
    is_digit, lines, lines_of, parse_unsigned, parse_unsigned_max, slice_copy, starts_with,
    starts_with_str, string_of, views,
};

verus! {

/// A test that `cargo test` reported as failed.
#[derive(Debug)]
pub struct TestFailure {
    pub name: String,
    pub stdout: Option<String>,
    pub message: Option<String>,
}

/// What a `cargo test` run reported.
#[derive(Debug)]
pub struct Output {
    pub success: bool,
    pub passed: u32,
    pub failed: u32,
    pub ignored: u32,
    pub total: u32,
    pub failures: Vec<TestFailure>,
    pub stdout: Option<String>,
    pub error: Option<String>,
}

/// The longest suffix of `s` made of ASCII digits.
pub open spec fn digit_suffix(s: Seq<char>) -> Seq<char>
    decreases s.len(),
{
    if s.len() > 0 && is_digit(s.last()) {
        digit_suffix(s.drop_last()).push(s.last())
    } else {
        seq![]
    }
}

/// The last maximal run of ASCII digits in `s`.
pub open spec fn last_run(s: Seq<char>) -> Option<Seq<char>>
    decreases s.len(),
{
    if s.len() == 0 {
        None
    } else if is_digit(s.last()) {
        Some(digit_suffix(s))
    } else {
        last_run(s.drop_last())
    }
}

/// The last number written before the first occurrence of `word` in `s`,
/// when it fits in a `u32`.
pub open spec fn number_before(s: Seq<char>, word: Seq<char>) -> Option<nat> {
    match first_occ(s, word, 0) {
        None => None,
        Some(i) => match last_run(s.take(i)) {
            None => None,
            Some(d) => parse_unsigned(d, u32::MAX as nat),
        },
    }
}

/// The last number before `word` in `s`.
pub fn extract_number(s: &str, word: &str) -> (r: Option<u32>)
    ensures
        match number_before(s@, word@) {
            Some(v) => r == Some(v as u32),
            None => r is None,
        },
{
    let sc = chars_of(s);
    let wc = chars_of(word);
    let i = match find_first(sc.as_slice(), wc.as_slice()) {
        None => {
            return None;
        },
        Some(i) => i,
    };
    proof {
        crate::text::lemma_first_occ(s@, word@, 0);
    }
    let mut j = i;
    while j > 0 && !is_ascii_digit(sc[j - 1])
        invariant
            j <= i <= sc@.len(),
            sc@ == s@,
            last_run(sc@.take(i as int)) == last_run(sc@.take(j as int)),
        decreases j,
    {
        proof {
            assert(sc@.take(j as int).drop_last() =~= sc@.take(j - 1));
        }
        j = j - 1;
    }
    if j == 0 {
        proof {
            assert(sc@.take(0) =~= Seq::<char>::empty());
        }
        return None;
    }
    proof {
        assert(sc@.take(j as int).last() == sc@[j - 1]);
    }
    let mut k = j;
    while k > 0 && is_ascii_digit(sc[k - 1])
        invariant
            k <= j <= sc@.len(),
            digit_suffix(sc@.take(j as int)) == digit_suffix(sc@.take(k as int)) + sc@.subrange(
                k as int,
                j as int,
            ),
            forall|t: int| k <= t < j ==> is_digit(#[trigger] sc@[t]),
        decreases k,
    {
        proof {
            let a = sc@.take(k - 1);
            assert(sc@.take(k as int).drop_last() =~= a);
            assert(sc@.subrange(k - 1, j as int) =~= seq![sc@[k - 1]] + sc@.subrange(
                k as int,
                j as int,
            ));
            assert(digit_suffix(a).push(sc@[k - 1]) + sc@.subrange(k as int, j as int)
                =~= digit_suffix(a) + sc@.subrange(k - 1, j as int));
        }
        k = k - 1;
    }
    proof {
        if k > 0 {
            assert(sc@.take(k as int).last() == sc@[k - 1]);
        } else {
            assert(sc@.take(0) =~= Seq::<char>::empty());
        }
        assert(digit_suffix(sc@.take(k as int)) =~= Seq::<char>::empty());
        assert(digit_suffix(sc@.take(j as int)) =~= sc@.subrange(k as int, j as int));
    }
    let run = slice_copy(sc.as_slice(), k, j);
    match parse_unsigned_max(run.as_slice(), 4294967295u64) {
        Some(v) => Some(v as u32),
        None => None,
    }
}

/// The test named by a line such as `test some_test ... FAILED`.
pub open spec fn failure_name(line: Seq<char>) -> Option<Seq<char>> {
    if starts_with(line, "test "@) && ends_with(line, " FAILED"@) {
        let t = line.skip(5);
        if ends_with(t, " ... FAILED"@) {
            Some(t.take(t.len() - 11))
        } else {
            None
        }
    } else {
        None
    }
}

/// Names of the failed tests, each once, in the order first reported.
pub open spec fn failed_names(ls: Seq<Seq<char>>) -> Seq<Seq<char>>
    decreases ls.len(),
{
    if ls.len() == 0 {
        seq![]
    } else {
        let acc = failed_names(ls.drop_last());
        match failure_name(ls.last()) {
            Some(n) => if acc.contains(n) {
                acc
            } else {
                acc.push(n)
            },
            None => acc,
        }
    }
}

/// `v` when present, else `old`.
pub open spec fn keep(old: nat, v: Option<nat>) -> nat {
    match v {
        Some(x) => x,
        None => old,
    }
}

/// Passed, failed and ignored counts of the last `test result:` lines
/// that name them, and whether any such line occurred.
pub open spec fn counts(ls: Seq<Seq<char>>) -> (nat, nat, nat, bool)
    decreases ls.len(),
{
    if ls.len() == 0 {
        (0, 0, 0, false)
    } else {
        let c = counts(ls.drop_last());
        let l = ls.last();
        if starts_with(l, "test result:"@) {
            (
                keep(c.0, number_before(l, "passed"@)),
                keep(c.1, number_before(l, "failed"@)),
                keep(c.2, number_before(l, "ignored"@)),
                true,
            )
        } else {
            c
        }
    }
}

/// Standard output and standard error as the summary reads them.
pub open spec fn combined(stdout: Seq<char>, stderr: Seq<char>) -> Seq<char> {
    stdout + "\n"@ + stderr
}

/// The failure named by `line`, if any.
fn failure_of(line: &[char]) -> (r: Option<Vec<char>>)
    ensures
        match failure_name(line@) {
            Some(n) => r matches Some(v) && v@ == n,
            None => r is None,
        },
{
    proof {
        reveal_strlit("test ");
        reveal_strlit(" ... FAILED");
    }
    if starts_with_str(line, "test ") && ends_with_str(line, " FAILED") {
        let t = slice_copy(line, 5, line.len());
        proof {
            assert(t@ =~= line@.skip(5));
        }
        if ends_with_str(t.as_slice(), " ... FAILED") {
            let n = slice_copy(t.as_slice(), 0, t.len() - 11);
            proof {
                assert(n@ =~= t@.take(t@.len() - 11));
            }
            Some(n)
        } else {
            None
        }
    } else {
        None
    }
}

fn seen(names: &Vec<Vec<char>>, n: &Vec<char>) -> (b: bool)
    ensures
        b == views(names@).contains(n@),
{
    let mut i: usize = 0;
    while i < names.len()
        invariant
            i <= names@.len(),
            forall|j: int| 0 <= j < i ==> views(names@)[j] != n@,
        decreases names@.len() - i,
    {
        if crate::text::eq_chars(names[i].as_slice(), n.as_slice()) {
            proof {
                assert(views(names@)[i as int] == n@);
            }
            return true;
        }
        i = i + 1;
    }
    false
}

/// The failed tests that `ls` reports, each once.
pub fn failures_in(ls: &Vec<Vec<char>>) -> (r: Vec<Vec<char>>)
    ensures
        views(r@) == failed_names(views(ls@)),
{
    let mut names: Vec<Vec<char>> = Vec::new();
    let mut i: usize = 0;
    while i < ls.len()
        invariant
            i <= ls@.len(),
            views(names@) == failed_names(views(ls@).take(i as int)),
        decreases ls@.len() - i,
    {
        proof {
            assert(views(ls@).take(i + 1).drop_last() =~= views(ls@).take(i as int));
            assert(views(ls@).take(i + 1).last() == ls@[i as int]@);
        }
        match failure_of(ls[i].as_slice()) {
            Some(n) => {
                if !seen(&names, &n) {
                    names.push(n);
                    proof {
                        assert(views(names@) =~= failed_names(views(ls@).take(i as int)).push(
                            ls@[i as int]@.skip(5).take(ls@[i as int]@.skip(5).len() - 11),
                        ));
                    }
                }
            },
            None => {},
        }
        i = i + 1;
    }
    proof {
        assert(views(ls@).take(i as int) =~= views(ls@));
    }
    names
}

/// The summary counts that `ls` reports: passed, failed, ignored, and
/// whether a `test result:` line was found.
pub fn summary_counts(ls: &Vec<Vec<char>>) -> (r: (u32, u32, u32, bool))
    ensures
        counts(views(ls@)) == (r.0 as nat, r.1 as nat, r.2 as nat, r.3),
{
    let mut passed: u32 = 0;
    let mut failed: u32 = 0;
    let mut ignored: u32 = 0;
    let mut found = false;
    let mut i: usize = 0;
    while i < ls.len()
        invariant
            i <= ls@.len(),
            counts(views(ls@).take(i as int)) == (passed as nat, failed as nat, ignored as nat, found),
        decreases ls@.len() - i,
    {
        proof {
            assert(views(ls@).take(i + 1).drop_last() =~= views(ls@).take(i as int));
            assert(views(ls@).take(i + 1).last() == ls@[i as int]@);
        }
        let line = string_of(ls[i].as_slice());
        if starts_with_str(ls[i].as_slice(), "test result:") {
            if let Some(v) = extract_number(line.as_str(), "passed") {
                passed = v;
            }
            if let Some(v) = extract_number(line.as_str(), "failed") {
                failed = v;
            }
            if let Some(v) = extract_number(line.as_str(), "ignored") {
                ignored = v;
            }
            found = true;
        }
        i = i + 1;
    }
    proof {
        assert(views(ls@).take(i as int) =~= views(ls@));
    }
    (passed, failed, ignored, found)
}

/// Summarise a finished `cargo test` run from its standard output, its
/// standard error and whether it exited successfully.
pub fn parse_test_output(stdout: &str, stderr: &str, exit_ok: bool) -> (r: Output)
    requires
        ({
            let c = counts(lines_of(combined(stdout@, stderr@)));
            c.0 + c.1 + c.2 <= u32::MAX
        }),
    ensures
        ({
            let all = combined(stdout@, stderr@);
            let c = counts(lines_of(all));
            &&& r.passed == c.0
            &&& r.failed == c.1
            &&& r.ignored == c.2
            &&& r.total == c.0 + c.1 + c.2
            &&& r.success == (exit_ok && c.1 == 0)
            &&& r.failures@.len() == failed_names(lines_of(all)).len()
            &&& forall|j: int|
                0 <= j < r.failures@.len() ==> #[trigger] r.failures@[j].name@ == failed_names(
                    lines_of(all),
                )[j] && r.failures@[j].stdout is None && r.failures@[j].message is None
            &&& match r.stdout {
                Some(o) => (c.1 > 0 || !exit_ok) && o@ == all,
                None => !(c.1 > 0 || !exit_ok),
            }
            &&& match r.error {
                Some(e) => !c.3 && !exit_ok && e@ == "cargo test failed:\n"@ + stderr@,
                None => c.3 || exit_ok,
            }
        }),
{
    let mut all = chars_of(stdout);
    extend_str(&mut all, "\n");
    crate::text::extend(&mut all, chars_of(stderr).as_slice());
    let ls = lines(all.as_slice());
    let names = failures_in(&ls);
    let (passed, failed, ignored, found) = summary_counts(&ls);
    let mut failures: Vec<TestFailure> = Vec::new();
    let mut i: usize = 0;
    while i < names.len()
        invariant
            i <= names@.len(),
            failures@.len() == i,
            forall|j: int|
                0 <= j < i ==> #[trigger] failures@[j].name@ == names@[j]@ && failures@[j].stdout is None
                    && failures@[j].message is None,
        decreases names@.len() - i,
    {
        failures.push(TestFailure { name: string_of(names[i].as_slice()), stdout: None, message: None });
        i = i + 1;
    }
    proof {
        assert forall|j: int| 0 <= j < names@.len() implies names@[j]@ == failed_names(lines_of(all@))[j] by {
            assert(views(names@)[j] == names@[j]@);
        }
    }
    let out_text = if failed > 0 || !exit_ok {
        Some(string_of(all.as_slice()))
    } else {
        None
    };
    let error = if !found && !exit_ok {
        let mut e = chars_of("cargo test failed:\n");
        crate::text::extend(&mut e, chars_of(stderr).as_slice());
        Some(string_of(e.as_slice()))
    } else {
        None
    };
    Output {
        success: exit_ok && failed == 0,
        passed,
        failed,
        ignored,
        total: passed + failed + ignored,
        failures,
        stdout: out_text,
        error,
    }
}

/// The `cargo_test` tool.
pub struct CargoTest;

impl CargoTest {
    /// The tool's name.
    pub fn name() -> (r: &'static str)
        ensures
            r@ == "cargo_test"@,
    {
        "cargo_test"
    }

    /// The tool's description.
    pub fn description() -> (r: &'static str)
        ensures
            r@ == "Run cargo test to execute tests"@,
    {
        "Run cargo test to execute tests"
    }
}

} // verus!
