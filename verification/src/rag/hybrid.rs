//! Mixing live portfolio entities into full-text results: how many slots a
//! query gives the portfolio, how they are spread over entity kinds, and
//! how the two result lists are merged.
use vstd::prelude::*;
use crate::json::Json;
use crate::rag::types::{fields_of, RankedChunk};
use crate::text::{chars_of, contains, contains_str, lower, lowercase_chars};

verus! {

/// Words that mark a query about portfolio entities.
pub open spec fn entity_keywords() -> Seq<Seq<char>> {
    seq![
        "experience"@, "skills"@, "job"@, "jobs"@, "work"@, "competency"@, "competencies"@,
        "resume"@, "about"@, "contact"@, "social"@, "career"@, "company"@, "position"@,
        "challenge"@, "challenges"@, "project"@, "projects"@,
    ]
}

/// Words that mark a query about the codebase.
pub open spec fn codebase_keywords() -> Seq<Seq<char>> {
    seq![
        "authentication"@, "auth"@, "cognito"@, "login"@, "architecture"@, "implement"@,
        "design"@, "infrastructure"@, "deploy"@, "lambda"@, "database"@, "sqlite"@,
        "endpoint"@, "api"@, "route"@, "handler"@, "middleware"@, "service"@,
    ]
}

/// Words that mark interest in skills.
pub open spec fn skill_keywords() -> Seq<Seq<char>> {
    seq!["skill"@, "skills"@, "competency"@, "competencies"@, "expertise"@]
}

/// Words that mark interest in challenges and projects.
pub open spec fn challenge_keywords() -> Seq<Seq<char>> {
    seq!["challenge"@, "challenges"@, "project"@, "projects"@, "tradeoff"@, "outcome"@]
}

/// Words that mark interest in architecture.
pub open spec fn architecture_keywords() -> Seq<Seq<char>> {
    seq!["architecture"@, "adr"@, "design"@, "infrastructure"@, "auth"@, "cognito"@]
}

/// `s` contains one of `kws`.
pub open spec fn mentions(s: Seq<char>, kws: Seq<Seq<char>>) -> bool {
    exists|i: int| 0 <= i < kws.len() && contains(s, #[trigger] kws[i])
}

/// Portfolio slots for a query: up to 5 for an entity question, up to 2
/// for a codebase question, up to 3 for both, none otherwise.
pub open spec fn budget(query: Seq<char>, top_k: nat) -> nat {
    let l = lower(query);
    let e = mentions(l, entity_keywords());
    let c = mentions(l, codebase_keywords());
    let cap: nat = if e && !c {
        5
    } else if !e && c {
        2
    } else if e && c {
        3
    } else {
        0
    };
    if top_k < cap {
        top_k
    } else {
        cap
    }
}

/// What a query shows interest in.
#[derive(Debug, Clone, Copy, PartialEq, Eq, Structural)]
pub struct QueryIntent {
    pub skills: bool,
    pub challenges: bool,
    pub architecture: bool,
}

/// The starting spread of slots over jobs, competencies, about sections
/// and challenges.
pub open spec fn base_mix(intent: QueryIntent) -> Seq<int> {
    if intent.skills {
        seq![1, 2, 1, 1]
    } else if intent.challenges {
        seq![1, 1, 1, 2]
    } else if intent.architecture {
        seq![1, 1, 2, 1]
    } else {
        seq![2, 1, 1, 1]
    }
}

/// The spread of `b` slots: none when `b` is 0; otherwise the starting
/// spread with one slot taken from each of the first `5 - b` kinds when
/// `b < 5`, or `b - 5` slots dealt out one per kind in turn when `b > 5`.
pub open spec fn mix_for(intent: QueryIntent, b: int) -> Seq<int> {
    let m = base_mix(intent);
    if b == 0 {
        seq![0, 0, 0, 0]
    } else if b < 5 {
        Seq::new(4, |k: int| m[k] - if k < 5 - b {
            1int
        } else {
            0int
        })
    } else {
        Seq::new(4, |k: int| m[k] + (b - 5) / 4 + if k < (b - 5) % 4 {
            1int
        } else {
            0int
        })
    }
}

/// The holder of the full-text retriever and the portfolio source.
pub struct HybridRetriever<R, P> {
    pub fts: R,
    pub portfolio: P,
}

fn mentions_any(l: &[char], kws: &[&str]) -> (b: bool)
    ensures
        b == exists|i: int| 0 <= i < kws@.len() && contains(l@, #[trigger] kws@[i]@),
{
    let mut i: usize = 0;
    while i < kws.len()
        invariant
            i <= kws@.len(),
            forall|j: int| 0 <= j < i ==> !contains(l@, #[trigger] kws@[j]@),
        decreases kws@.len() - i,
    {
        if contains_str(l, kws[i]) {
            return true;
        }
        i = i + 1;
    }
    false
}

impl<R, P> HybridRetriever<R, P> {
    /// How many of `top_k` slots go to live portfolio entities.
    pub fn portfolio_budget_for(query: &str, top_k: usize) -> (n: usize)
        ensures
            n == budget(query@, top_k as nat),
    {
        let l = lowercase_chars(chars_of(query).as_slice());
        let ek: [&str; 18] = [
            "experience", "skills", "job", "jobs", "work", "competency", "competencies",
            "resume", "about", "contact", "social", "career", "company", "position",
            "challenge", "challenges", "project", "projects",
        ];
        let ck: [&str; 18] = [
            "authentication", "auth", "cognito", "login", "architecture", "implement",
            "design", "infrastructure", "deploy", "lambda", "database", "sqlite",
            "endpoint", "api", "route", "handler", "middleware", "service",
        ];
        proof {
            assert(forall|i: int| 0 <= i < 18 ==> ek@[i]@ == #[trigger] entity_keywords()[i]);
            assert(forall|i: int| 0 <= i < 18 ==> ck@[i]@ == #[trigger] codebase_keywords()[i]);
        }
        let e = mentions_any(l.as_slice(), &ek);
        let c = mentions_any(l.as_slice(), &ck);
        proof {
            if e {
                let i = choose|i: int| 0 <= i < 18 && contains(l@, #[trigger] ek@[i]@);
                assert(contains(l@, entity_keywords()[i]));
            }
            if c {
                let i = choose|i: int| 0 <= i < 18 && contains(l@, #[trigger] ck@[i]@);
                assert(contains(l@, codebase_keywords()[i]));
            }
            if mentions(l@, entity_keywords()) {
                let i = choose|i: int| 0 <= i < 18 && contains(l@, #[trigger] entity_keywords()[i]);
                assert(contains(l@, ek@[i]@));
            }
            if mentions(l@, codebase_keywords()) {
                let i = choose|i: int| 0 <= i < 18 && contains(l@, #[trigger] codebase_keywords()[i]);
                assert(contains(l@, ck@[i]@));
            }
        }
        let cap: usize = if e && !c {
            5
        } else if !e && c {
            2
        } else if e && c {
            3
        } else {
            0
        };
        if top_k < cap {
            top_k
        } else {
            cap
        }
    }

    /// What `query` shows interest in.
    pub fn parse_intent(query: &str) -> (q: QueryIntent)
        ensures
            q.skills == mentions(lower(query@), skill_keywords()),
            q.challenges == mentions(lower(query@), challenge_keywords()),
            q.architecture == mentions(lower(query@), architecture_keywords()),
    {
        let l = lowercase_chars(chars_of(query).as_slice());
        let sk: [&str; 5] = ["skill", "skills", "competency", "competencies", "expertise"];
        let chk: [&str; 6] = ["challenge", "challenges", "project", "projects", "tradeoff", "outcome"];
        let ak: [&str; 6] = ["architecture", "adr", "design", "infrastructure", "auth", "cognito"];
        proof {
            assert(forall|i: int| 0 <= i < 5 ==> sk@[i]@ == #[trigger] skill_keywords()[i]);
            assert(forall|i: int| 0 <= i < 6 ==> chk@[i]@ == #[trigger] challenge_keywords()[i]);
            assert(forall|i: int| 0 <= i < 6 ==> ak@[i]@ == #[trigger] architecture_keywords()[i]);
        }
        let s = mentions_any(l.as_slice(), &sk);
        let ch = mentions_any(l.as_slice(), &chk);
        let a = mentions_any(l.as_slice(), &ak);
        proof {
            if s {
                let i = choose|i: int| 0 <= i < 5 && contains(l@, #[trigger] sk@[i]@);
                assert(contains(l@, skill_keywords()[i]));
            }
            if mentions(l@, skill_keywords()) {
                let i = choose|i: int| 0 <= i < 5 && contains(l@, #[trigger] skill_keywords()[i]);
                assert(contains(l@, sk@[i]@));
            }
            if ch {
                let i = choose|i: int| 0 <= i < 6 && contains(l@, #[trigger] chk@[i]@);
                assert(contains(l@, challenge_keywords()[i]));
            }
            if mentions(l@, challenge_keywords()) {
                let i = choose|i: int| 0 <= i < 6 && contains(l@, #[trigger] challenge_keywords()[i]);
                assert(contains(l@, chk@[i]@));
            }
            if a {
                let i = choose|i: int| 0 <= i < 6 && contains(l@, #[trigger] ak@[i]@);
                assert(contains(l@, architecture_keywords()[i]));
            }
            if mentions(l@, architecture_keywords()) {
                let i = choose|i: int| 0 <= i < 6 && contains(l@, #[trigger] architecture_keywords()[i]);
                assert(contains(l@, ak@[i]@));
            }
        }
        QueryIntent { skills: s, challenges: ch, architecture: a }
    }

    /// Spread `portfolio_budget` slots over jobs, competencies, about
    /// sections and challenges, leaning towards what the query is about.
    pub fn live_mix_from_intent(intent: QueryIntent, portfolio_budget: usize) -> (mix: [usize; 4])
        ensures
            forall|k: int| 0 <= k < 4 ==> mix@[k] == #[trigger] mix_for(intent, portfolio_budget as int)[k],
    {
        if portfolio_budget == 0 {
            return [0, 0, 0, 0];
        }
        let b = portfolio_budget;
        let mut v: Vec<usize> = if intent.skills {
            vec![1, 2, 1, 1]
        } else if intent.challenges {
            vec![1, 1, 1, 2]
        } else if intent.architecture {
            vec![1, 1, 2, 1]
        } else {
            vec![2, 1, 1, 1]
        };
        let ghost m = base_mix(intent);
        let ghost target = mix_for(intent, b as int);
        proof {
            assert(v@.len() == 4);
            assert forall|t: int| 0 <= t < 4 implies v@[t] == m[t] by {}
        }
        let mut total: usize = v[0] + v[1] + v[2] + v[3];
        // Take slots away, one per kind in turn, while there are too many.
        while total > b
            invariant
                v@.len() == 4,
                b > 0,
                m == base_mix(intent),
                target == mix_for(intent, b as int),
                b < 5 ==> (total == 5 && forall|t: int| 0 <= t < 4 ==> v@[t] == m[t]) || (
                total == b && forall|t: int| 0 <= t < 4 ==> v@[t] == target[t]),
                b >= 5 ==> total == 5 && forall|t: int| 0 <= t < 4 ==> v@[t] == m[t],
            decreases total,
        {
            let mut k: usize = 0;
            while k < 4
                invariant
                    v@.len() == 4,
                    0 < b < 5,
                    k <= 4,
                    m == base_mix(intent),
                    target == mix_for(intent, b as int),
                    total == 5 - if k < 5 - b {
                        k as int
                    } else {
                        5 - b
                    },
                    forall|t: int|
                        0 <= t < 4 ==> v@[t] == m[t] - if t < k && t < 5 - b {
                            1int
                        } else {
                            0int
                        },
                decreases 4 - k,
            {
                if v[k] > 0 && total > b {
                    let x = v[k] - 1;
                    v.set(k, x);
                    total = total - 1;
                }
                k = k + 1;
            }
        }
        // Deal slots out, one per kind in turn, while there are too few.
        let ghost mut p: int = 0;
        proof {
            if b >= 5 {
                assert forall|t: int| 0 <= t < 4 implies v@[t] == m[t] + p by {}
            }
        }
        while total < b
            invariant
                v@.len() == 4,
                b > 0,
                p >= 0,
                m == base_mix(intent),
                target == mix_for(intent, b as int),
                total <= b,
                b < 5 ==> total == b && forall|t: int| 0 <= t < 4 ==> v@[t] == target[t],
                b >= 5 ==> (total == 5 + 4 * p && forall|t: int| 0 <= t < 4 ==> v@[t] == m[t] + p)
                    || (total == b && forall|t: int| 0 <= t < 4 ==> v@[t] == target[t]),
            decreases b - total,
        {
            let ghost p0 = p;
            let mut k: usize = 0;
            while k < 4
                invariant
                    v@.len() == 4,
                    b >= 5,
                    k <= 4,
                    p0 >= 0,
                    5 + 4 * p0 < b,
                    m == base_mix(intent),
                    total == 5 + 4 * p0 + if k < b - 5 - 4 * p0 {
                        k as int
                    } else {
                        b - 5 - 4 * p0
                    },
                    forall|t: int|
                        0 <= t < 4 ==> v@[t] == m[t] + p0 + if t < k && t < b - 5 - 4 * p0 {
                            1int
                        } else {
                            0int
                        },
                decreases 4 - k,
            {
                if total < b {
                    let x = v[k] + 1;
                    v.set(k, x);
                    total = total + 1;
                }
                k = k + 1;
            }
            proof {
                if b - 5 - 4 * p0 >= 4 {
                    p = p0 + 1;
                } else {
                    vstd::arithmetic::div_mod::lemma_fundamental_div_mod_converse(
                        b - 5,
                        4,
                        p0,
                        b - 5 - 4 * p0,
                    );
                    assert forall|t: int| 0 <= t < 4 implies v@[t] == target[t] by {}
                }
            }
        }
        proof {
            if b >= 5 && total == 5 + 4 * p && total == b {
                vstd::arithmetic::div_mod::lemma_fundamental_div_mod_converse(b - 5, 4, p, 0);
                assert forall|t: int| 0 <= t < 4 implies v@[t] == target[t] by {}
            }
        }
        [v[0], v[1], v[2], v[3]]
    }
}

/// Field tuple of a ranked chunk.
pub type Fields = (i64, i64, Seq<char>, Seq<char>, Seq<char>, i64, Seq<char>, u64);

/// At most `n` chunks from the front of `q`.
pub open spec fn front(q: Seq<Fields>, n: int) -> Seq<Fields> {
    if n < q.len() {
        q.take(n)
    } else {
        q
    }
}

/// Some chunk of `live` has the source path `path`.
pub open spec fn has_path(live: Seq<Fields>, path: Seq<char>) -> bool {
    exists|i: int| 0 <= i < live.len() && (#[trigger] live[i]).3 == path
}

/// Top `live` up to `budget` chunks from `overflow[i..]`, skipping chunks
/// whose source path is already present.
pub open spec fn fill(live: Seq<Fields>, overflow: Seq<Fields>, i: int, budget: int) -> Seq<Fields>
    decreases overflow.len() - i,
{
    if live.len() >= budget || i < 0 || i >= overflow.len() {
        live
    } else if has_path(live, overflow[i].3) {
        fill(live, overflow, i + 1, budget)
    } else {
        fill(live.push(overflow[i]), overflow, i + 1, budget)
    }
}

/// The live chunks chosen for a query: the front of each kind's queue by
/// the spread `mix`, topped up from `overflow` when short of `budget`.
pub open spec fn live_choice(mix: Seq<int>, queues: Seq<Seq<Fields>>, overflow: Seq<Fields>, budget: int) -> Seq<Fields> {
    let first = front(queues[0], mix[0]) + front(queues[1], mix[1]) + front(queues[2], mix[2])
        + front(queues[3], mix[3]);
    if first.len() < budget {
        fill(first, overflow, 0, budget)
    } else {
        first
    }
}

/// Live chunks first, then the full-text results, cut to `top_k`.
pub open spec fn merged(live: Seq<Fields>, fts: Seq<Fields>, top_k: int) -> Seq<Fields> {
    front(live + fts, top_k)
}

fn push_front_of(q: &Vec<RankedChunk>, n: usize, out: &mut Vec<RankedChunk>)
    ensures
        fields_of(final(out)@) == fields_of(old(out)@) + front(fields_of(q@), n as int),
{
    let mut i: usize = 0;
    while i < n && i < q.len()
        invariant
            i <= q@.len(),
            i <= n,
            fields_of(out@) == fields_of(old(out)@) + fields_of(q@).take(i as int),
        decreases q@.len() - i,
    {
        let ghost before = out@;
        out.push(q[i].duplicate());
        i = i + 1;
        proof {
            assert(fields_of(out@) =~= fields_of(before).push(q@[i - 1].fields()));
            assert(fields_of(q@).take(i as int) =~= fields_of(q@).take(i - 1).push(q@[i - 1].fields()));
        }
    }
    proof {
        if n < q@.len() {
            assert(i == n);
        } else {
            assert(fields_of(q@).take(i as int) =~= fields_of(q@));
        }
    }
}

fn path_present(live: &Vec<RankedChunk>, path: &String) -> (b: bool)
    ensures
        b == has_path(fields_of(live@), path@),
{
    let mut i: usize = 0;
    while i < live.len()
        invariant
            i <= live@.len(),
            forall|j: int| 0 <= j < i ==> fields_of(live@)[j].3 != path@,
        decreases live@.len() - i,
    {
        if crate::text::eq_str(live[i].source_path.as_str(), path.as_str()) {
            proof {
                assert(fields_of(live@)[i as int].3 == path@);
            }
            return true;
        }
        i = i + 1;
    }
    false
}

impl<R, P> HybridRetriever<R, P> {
    /// The live chunks for a query: the first `mix[k]` chunks of each
    /// kind's queue (jobs, competencies, about sections, challenges), then,
    /// while fewer than `portfolio_budget`, the next `overflow` chunks
    /// whose source path is not yet present.
    pub fn select_live(
        mix: [usize; 4],
        queues: &Vec<Vec<RankedChunk>>,
        overflow: &Vec<RankedChunk>,
        portfolio_budget: usize,
    ) -> (live: Vec<RankedChunk>)
        requires
            queues@.len() == 4,
        ensures
            fields_of(live@) == live_choice(
                Seq::new(4, |k: int| mix@[k] as int),
                Seq::new(4, |k: int| fields_of(queues@[k]@)),
                fields_of(overflow@),
                portfolio_budget as int,
            ),
    {
        let ghost qs = Seq::new(4, |k: int| fields_of(queues@[k]@));
        let ghost ms = Seq::new(4, |k: int| mix@[k] as int);
        let mut live: Vec<RankedChunk> = Vec::new();
        push_front_of(&queues[0], mix[0], &mut live);
        push_front_of(&queues[1], mix[1], &mut live);
        push_front_of(&queues[2], mix[2], &mut live);
        push_front_of(&queues[3], mix[3], &mut live);
        let ghost first = fields_of(live@);
        proof {
            assert(first =~= front(qs[0], ms[0]) + front(qs[1], ms[1]) + front(qs[2], ms[2]) + front(
                qs[3],
                ms[3],
            ));
        }
        if live.len() < portfolio_budget {
            let mut i: usize = 0;
            while live.len() < portfolio_budget && i < overflow.len()
                invariant
                    i <= overflow@.len(),
                    fill(first, fields_of(overflow@), 0, portfolio_budget as int) == fill(
                        fields_of(live@),
                        fields_of(overflow@),
                        i as int,
                        portfolio_budget as int,
                    ),
                decreases overflow@.len() - i,
            {
                if !path_present(&live, &overflow[i].source_path) {
                    let ghost before = live@;
                    live.push(overflow[i].duplicate());
                    proof {
                        assert(fields_of(live@) =~= fields_of(before).push(fields_of(overflow@)[i as int]));
                    }
                }
                i = i + 1;
            }
        }
        live
    }

    /// Live chunks first, then the full-text results, at most `top_k`.
    pub fn merge(live: Vec<RankedChunk>, fts: Vec<RankedChunk>, top_k: usize) -> (r: Vec<RankedChunk>)
        ensures
            fields_of(r@) == merged(fields_of(live@), fields_of(fts@), top_k as int),
    {
        let mut all = live;
        let mut f = fts;
        let ghost l0 = fields_of(all@);
        let ghost f0 = fields_of(f@);
        all.append(&mut f);
        proof {
            assert(fields_of(all@) =~= l0 + f0);
        }
        all.truncate(top_k);
        proof {
            if top_k < (l0 + f0).len() {
                assert(fields_of(all@) =~= (l0 + f0).take(top_k as int));
            } else {
                assert(fields_of(all@) =~= l0 + f0);
            }
        }
        all
    }
}

/// Law: the spread of `b` slots hands out exactly `b` slots, none negative.
pub proof fn law_mix_total(intent: QueryIntent, b: int)
    requires
        b >= 0,
    ensures
        ({
            let m = mix_for(intent, b);
            &&& m.len() == 4
            &&& m[0] + m[1] + m[2] + m[3] == b
            &&& forall|k: int| 0 <= k < 4 ==> #[trigger] m[k] >= 0
        }),
{
    let m = mix_for(intent, b);
    if b >= 5 {
        vstd::arithmetic::div_mod::lemma_fundamental_div_mod(b - 5, 4);
        let q = (b - 5) / 4;
        let r = (b - 5) % 4;
        assert(0 <= r < 4);
        assert(m[0] + m[1] + m[2] + m[3] == 5 + 4 * q + r);
        assert(b - 5 == 4 * q + r) by (nonlinear_arith)
            requires
                b - 5 == 4 * q + r,
        ;
        assert(q >= 0) by (nonlinear_arith)
            requires
                b - 5 == 4 * q + r,
                b >= 5,
                0 <= r < 4,
        ;
    }
}

/// Law: a query never gets more portfolio slots than `top_k`, nor more
/// than five.
pub proof fn law_budget_bounds(query: Seq<char>, top_k: nat)
    ensures
        budget(query, top_k) <= top_k,
        budget(query, top_k) <= 5,
{
}

/// At most the whole queue, and at most `n`.
proof fn lemma_front_len(q: Seq<Fields>, n: int)
    requires
        n >= 0,
    ensures
        front(q, n).len() <= n,
        front(q, n).len() <= q.len(),
{
}

/// Topping up stops at the budget.
proof fn lemma_fill_len(live: Seq<Fields>, overflow: Seq<Fields>, i: int, budget: int)
    requires
        live.len() <= budget,
    ensures
        fill(live, overflow, i, budget).len() <= budget,
        fill(live, overflow, i, budget).len() >= live.len(),
        fill(live, overflow, i, budget).take(live.len() as int) == live,
    decreases overflow.len() - i,
{
    if live.len() >= budget || i < 0 || i >= overflow.len() {
        assert(live.take(live.len() as int) =~= live);
    } else if has_path(live, overflow[i].3) {
        lemma_fill_len(live, overflow, i + 1, budget);
    } else {
        lemma_fill_len(live.push(overflow[i]), overflow, i + 1, budget);
        let f = fill(live.push(overflow[i]), overflow, i + 1, budget);
        assert(f.take(live.len() as int) =~= f.take(live.len() + 1int).take(live.len() as int));
        assert(live.push(overflow[i]).take(live.len() as int) =~= live);
    }
}

/// Law: the live chunks chosen for a query never exceed its portfolio
/// budget.
pub proof fn law_live_within_budget(intent: QueryIntent, b: int, queues: Seq<Seq<Fields>>, overflow: Seq<Fields>)
    requires
        b >= 0,
        queues.len() == 4,
    ensures
        live_choice(mix_for(intent, b), queues, overflow, b).len() <= b,
{
    let m = mix_for(intent, b);
    law_mix_total(intent, b);
    lemma_front_len(queues[0], m[0]);
    lemma_front_len(queues[1], m[1]);
    lemma_front_len(queues[2], m[2]);
    lemma_front_len(queues[3], m[3]);
    let first = front(queues[0], m[0]) + front(queues[1], m[1]) + front(queues[2], m[2]) + front(
        queues[3],
        m[3],
    );
    if first.len() < b {
        lemma_fill_len(first, overflow, 0, b);
    }
}

/// Law: the merged results hold at most `top_k` chunks, the live chunks
/// come first, and full-text results fill the rest in their order.
pub proof fn law_merge(live: Seq<Fields>, fts: Seq<Fields>, top_k: int)
    requires
        top_k >= 0,
    ensures
        merged(live, fts, top_k).len() == if top_k < live.len() + fts.len() {
            top_k
        } else {
            (live.len() + fts.len()) as int
        },
        forall|i: int| 0 <= i < merged(live, fts, top_k).len() && i < live.len() ==> #[trigger] merged(live, fts, top_k)[i] == live[i],
        forall|i: int|
            0 <= i < merged(live, fts, top_k).len() && i >= live.len() ==> #[trigger] merged(live, fts, top_k)[i]
                == fts[i - live.len()],
{
}

} // verus!
