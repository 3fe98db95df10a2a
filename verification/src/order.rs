//! Stable ordering by keys compared lexicographically: the order a stable
//! sort puts items in, as a permutation of their positions.
use vstd::prelude::*;

verus! {

/// `a` comes strictly before `b` in lexicographic order.
pub open spec fn lex_lt(a: Seq<u32>, b: Seq<u32>) -> bool
    decreases a.len(),
{
    if a.len() == 0 {
        b.len() > 0
    } else if b.len() == 0 {
        false
    } else if a[0] < b[0] {
        true
    } else if a[0] > b[0] {
        false
    } else {
        lex_lt(a.drop_first(), b.drop_first())
    }
}

/// Item `i` comes before item `j` in a stable sort by `keys`: a smaller
/// key, or the same key and an earlier position.
pub open spec fn before(keys: Seq<Seq<u32>>, i: int, j: int) -> bool {
    lex_lt(keys[i], keys[j]) || (keys[i] == keys[j] && i < j)
}

/// `p` lists the positions `0..keys.len()` each once, in the order of a
/// stable sort by `keys`.
pub open spec fn stable_order(keys: Seq<Seq<u32>>, p: Seq<int>) -> bool {
    &&& p.len() == keys.len()
    &&& forall|i: int| 0 <= i < p.len() ==> 0 <= #[trigger] p[i] < keys.len()
    &&& p.no_duplicates()
    &&& forall|i: int, j: int| 0 <= i < j < p.len() ==> before(keys, #[trigger] p[i], #[trigger] p[j])
}

/// Law: the lexicographic order is a strict total order.
pub proof fn lemma_lex_total(a: Seq<u32>, b: Seq<u32>)
    ensures
        !(lex_lt(a, b) && lex_lt(b, a)),
        lex_lt(a, b) || lex_lt(b, a) || a =~= b,
        !lex_lt(a, a),
    decreases a.len(),
{
    if a.len() > 0 && b.len() > 0 && a[0] == b[0] {
        lemma_lex_total(a.drop_first(), b.drop_first());
        if a.drop_first() =~= b.drop_first() {
            assert(a =~= seq![a[0]] + a.drop_first());
            assert(b =~= seq![b[0]] + b.drop_first());
        }
    }
    if a.len() > 0 {
        lemma_lex_total(a.drop_first(), a.drop_first());
    }
}

/// Law: the lexicographic order is transitive.
pub proof fn lemma_lex_trans(a: Seq<u32>, b: Seq<u32>, c: Seq<u32>)
    requires
        lex_lt(a, b),
        lex_lt(b, c),
    ensures
        lex_lt(a, c),
    decreases a.len(),
{
    if a.len() > 0 && b.len() > 0 && c.len() > 0 && a[0] == b[0] && b[0] == c[0] {
        lemma_lex_trans(a.drop_first(), b.drop_first(), c.drop_first());
    }
}

fn lex_less(a: &Vec<u32>, b: &Vec<u32>) -> (r: bool)
    ensures
        r == lex_lt(a@, b@),
{
    let mut i: usize = 0;
    proof {
        assert(a@.skip(0) =~= a@);
        assert(b@.skip(0) =~= b@);
    }
    while i < a.len() && i < b.len()
        invariant
            i <= a@.len(),
            i <= b@.len(),
            lex_lt(a@, b@) == lex_lt(a@.skip(i as int), b@.skip(i as int)),
        decreases a@.len() - i,
    {
        if a[i] < b[i] {
            return true;
        }
        if a[i] > b[i] {
            return false;
        }
        proof {
            assert(a@.skip(i as int).drop_first() =~= a@.skip(i + 1));
            assert(b@.skip(i as int).drop_first() =~= b@.skip(i + 1));
        }
        i = i + 1;
    }
    i == a.len() && i < b.len()
}

/// The positions of the items with keys `keys`, in the order of a stable
/// sort by those keys.
pub fn stable_sort_order(keys: &Vec<Vec<u32>>) -> (p: Vec<usize>)
    ensures
        stable_order(keys@.map_values(|k: Vec<u32>| k@), p@.map_values(|i: usize| i as int)),
{
    let ghost ks = keys@.map_values(|k: Vec<u32>| k@);
    let mut p: Vec<usize> = Vec::new();
    let mut k: usize = 0;
    while k < keys.len()
        invariant
            k <= keys@.len(),
            ks == keys@.map_values(|k: Vec<u32>| k@),
            p@.len() == k,
            forall|i: int| 0 <= i < p@.len() ==> #[trigger] p@[i] < k,
            p@.no_duplicates(),
            forall|i: int, j: int| 0 <= i < j < p@.len() ==> before(ks, #[trigger] p@[i] as int, #[trigger] p@[j] as int),
        decreases keys@.len() - k,
    {
        let mut pos: usize = 0;
        while pos < p.len() && !lex_less(&keys[k], &keys[p[pos]])
            invariant
                pos <= p@.len(),
                k < keys@.len(),
                ks == keys@.map_values(|k: Vec<u32>| k@),
                forall|i: int| 0 <= i < p@.len() ==> #[trigger] p@[i] < k,
                forall|q: int| 0 <= q < pos ==> !lex_lt(ks[k as int], ks[#[trigger] p@[q] as int]),
            decreases p@.len() - pos,
        {
            pos = pos + 1;
        }
        let ghost old_p = p@;
        p.insert(pos, k);
        proof {
            assert forall|i: int| 0 <= i < p@.len() implies #[trigger] p@[i] < k + 1 by {
                if i < pos {
                    assert(p@[i] == old_p[i]);
                } else if i > pos {
                    assert(p@[i] == old_p[i - 1]);
                }
            }
            assert(p@.no_duplicates()) by {
                assert forall|a: int, b: int| 0 <= a < b < p@.len() implies p@[a] != p@[b] by {
                    if a != pos as int && b != pos as int {
                        let oa = if a < pos { a } else { a - 1 };
                        let ob = if b < pos { b } else { b - 1 };
                        assert(p@[a] == old_p[oa]);
                        assert(p@[b] == old_p[ob]);
                    } else if a == pos as int {
                        assert(p@[b] == old_p[b - 1]);
                    } else {
                        assert(p@[a] == old_p[a]);
                    }
                }
            }
            assert forall|a: int, b: int| 0 <= a < b < p@.len() implies before(ks, #[trigger] p@[a] as int, #[trigger] p@[b] as int) by {
                if a != pos as int && b != pos as int {
                    let oa = if a < pos { a } else { a - 1 };
                    let ob = if b < pos { b } else { b - 1 };
                    assert(p@[a] == old_p[oa]);
                    assert(p@[b] == old_p[ob]);
                } else if b == pos as int {
                    let x = old_p[a] as int;
                    assert(p@[a] == old_p[a]);
                    assert(!lex_lt(ks[k as int], ks[x]));
                    lemma_lex_total(ks[k as int], ks[x]);
                } else {
                    let y = old_p[b - 1] as int;
                    assert(p@[b] == old_p[b - 1]);
                    assert(lex_less_at(ks, k as int, old_p, pos as int));
                    if b - 1 > pos as int {
                        let z = old_p[pos as int] as int;
                        assert(before(ks, z, y));
                        lemma_lex_total(ks[z], ks[y]);
                        if lex_lt(ks[z], ks[y]) {
                            lemma_lex_trans(ks[k as int], ks[z], ks[y]);
                        }
                    }
                }
            }
        }
        k = k + 1;
    }
    proof {
        let pv = p@.map_values(|i: usize| i as int);
        assert forall|i: int| 0 <= i < pv.len() implies 0 <= #[trigger] pv[i] < ks.len() by {}
        assert(pv.no_duplicates()) by {
            assert forall|a: int, b: int| 0 <= a < b < pv.len() implies pv[a] != pv[b] by {
                assert(p@[a] != p@[b]);
            }
        }
        assert forall|i: int, j: int| 0 <= i < j < pv.len() implies before(ks, #[trigger] pv[i], #[trigger] pv[j]) by {
            assert(before(ks, p@[i] as int, p@[j] as int));
        }
    }
    p
}

/// The code points of `s`.
pub open spec fn codes(s: Seq<char>) -> Seq<u32> {
    s.map_values(|c: char| c as u32)
}

/// The code points of a string, as a sort key: comparing them
/// lexicographically is comparing the strings.
pub fn char_codes(s: &[char]) -> (r: Vec<u32>)
    ensures
        r@ == codes(s@),
{
    let mut r: Vec<u32> = Vec::new();
    let mut i: usize = 0;
    while i < s.len()
        invariant
            i <= s@.len(),
            r@ == codes(s@.take(i as int)),
        decreases s@.len() - i,
    {
        proof {
            assert(codes(s@.take(i + 1)) =~= codes(s@.take(i as int)).push(s@[i as int] as u32));
        }
        r.push(s[i] as u32);
        i = i + 1;
    }
    proof {
        assert(s@.take(i as int) =~= s@);
    }
    r
}

/// The key at position `pos` of the order `p` is strictly greater than
/// key `k` (the insertion point was found there).
spec fn lex_less_at(ks: Seq<Seq<u32>>, k: int, p: Seq<usize>, pos: int) -> bool {
    0 <= pos < p.len() && lex_lt(ks[k], ks[p[pos] as int])
}

} // verus!
