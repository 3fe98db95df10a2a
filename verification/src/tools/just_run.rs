//! The report of running a `just` recipe.
use vstd::prelude::*;
use crate::text::{byte_len, byte_len_exceeds, char_width, chars_of, extend_str, slice_copy, string_from, string_of};

verus! {

/// The `just_run` tool.
pub struct JustRun;

impl JustRun {
    /// The tool's name.
    pub fn name() -> (r: &'static str)
        ensures
            r@ == "just_run"@,
    {
        "just_run"
    }

    /// The tool's description.
    pub fn description() -> (r: &'static str)
        ensures
            r@ == "Execute a just recipe in a project directory"@,
    {
        "Execute a just recipe in a project directory"
    }
}

/// What running a recipe gave.
#[derive(Debug)]
pub struct Output {
    pub success: bool,
    pub exit_code: Option<i32>,
    pub stdout: Option<String>,
    pub stderr: Option<String>,
    pub duration_ms: Option<u64>,
    pub truncated: bool,
    pub error: Option<String>,
}


/// The most bytes of standard output or error a report keeps.
pub const MAX_OUTPUT_BYTES: usize = 102400;

/// The marker that ends a cut output.
pub open spec fn cut_marker() -> Seq<char> {
    "\n... [truncated]"@
}

/// Some prefix of `s` takes exactly `n` bytes.
pub open spec fn has_boundary(s: Seq<char>, n: nat) -> bool {
    exists|k: int| 0 <= k <= s.len() && #[trigger] byte_len(s.take(k)) == n
}

/// A longer prefix takes more bytes.
proof fn lemma_take_grows(s: Seq<char>, a: int, b: int)
    requires
        0 <= a < b <= s.len(),
    ensures
        byte_len(s.take(a)) < byte_len(s.take(b)),
    decreases b - a,
{
    assert(s.take(b).drop_last() =~= s.take(b - 1));
    if a < b - 1 {
        lemma_take_grows(s, a, b - 1);
    }
}

/// An output as the report keeps it: whole when it takes at most
/// `MAX_OUTPUT_BYTES` bytes, else its first `MAX_OUTPUT_BYTES` bytes and
/// the marker, with `true` for cut.
pub fn cap_output(s: &str) -> (r: (String, bool))
    requires
        byte_len(s@) > MAX_OUTPUT_BYTES ==> has_boundary(s@, MAX_OUTPUT_BYTES as nat),
    ensures
        byte_len(s@) <= MAX_OUTPUT_BYTES ==> r.0@ == s@ && !r.1,
        byte_len(s@) > MAX_OUTPUT_BYTES ==> r.1 && exists|k: int|
            0 <= k <= s@.len() && #[trigger] byte_len(s@.take(k)) == MAX_OUTPUT_BYTES && r.0@ == s@.take(k)
                + cut_marker(),
{
    let cc = chars_of(s);
    if !byte_len_exceeds(cc.as_slice(), MAX_OUTPUT_BYTES) {
        return (string_from(s), false);
    }
    let ghost k0 = choose|k: int| 0 <= k <= cc@.len() && #[trigger] byte_len(cc@.take(k)) == MAX_OUTPUT_BYTES;
    let mut i: usize = 0;
    let mut n: usize = 0;
    while n < MAX_OUTPUT_BYTES
        invariant
            0 <= k0 <= cc@.len(),
            byte_len(cc@.take(k0)) == MAX_OUTPUT_BYTES,
            i <= k0,
            n == byte_len(cc@.take(i as int)),
        decreases k0 - i,
    {
        proof {
            if i >= k0 {
                assert(i == k0);
                assert(n == MAX_OUTPUT_BYTES);
            }
            assert(i < k0);
            assert(cc@.take(i + 1).drop_last() =~= cc@.take(i as int));
            if i + 1 < k0 {
                lemma_take_grows(cc@, i + 1, k0);
            }
        }
        n = n + char_width(cc[i]);
        i = i + 1;
    }
    proof {
        if i < k0 {
            lemma_take_grows(cc@, i as int, k0);
        }
        assert(cc@.take(i as int) =~= cc@.subrange(0, i as int));
    }
    let mut kept = slice_copy(cc.as_slice(), 0, i);
    extend_str(&mut kept, "\n... [truncated]");
    (string_of(kept.as_slice()), true)
}

} // verus!
