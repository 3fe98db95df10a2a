//! Path components and the allow/deny judgement on resolved paths.
//!
//! Paths are compared component by component, as `Path::starts_with` does:
//! repeated separators and interior `.` components are ignored, a leading
//! `/` is the root component and a leading `.` of a relative path is kept.
use vstd::prelude::*;
use crate::mcp::error::McpError;
use crate::text::{chars_of, concat2, eq_chars, extend, extend_str, string_of, strs, views};

verus! {

/// Non-empty pieces of `s` between occurrences of `sep`, given the
/// unfinished piece `cur`.
pub open spec fn pieces_acc(cur: Seq<char>, s: Seq<char>, sep: char) -> Seq<Seq<char>>
    decreases s.len(),
{
    if s.len() == 0 {
        if cur.len() == 0 {
            seq![]
        } else {
            seq![cur]
        }
    } else if s[0] == sep {
        (if cur.len() == 0 {
            seq![]
        } else {
            seq![cur]
        }) + pieces_acc(seq![], s.drop_first(), sep)
    } else {
        pieces_acc(cur.push(s[0]), s.drop_first(), sep)
    }
}

/// Non-empty pieces of `s` between occurrences of `sep`.
pub open spec fn pieces(s: Seq<char>, sep: char) -> Seq<Seq<char>> {
    pieces_acc(seq![], s, sep)
}

/// `s` without its `"."` entries.
pub open spec fn drop_dots(s: Seq<Seq<char>>) -> Seq<Seq<char>>
    decreases s.len(),
{
    if s.len() == 0 {
        seq![]
    } else if s.last() == "."@ {
        drop_dots(s.drop_last())
    } else {
        drop_dots(s.drop_last()).push(s.last())
    }
}

/// The components of a path, as `Path::components` yields them.
pub open spec fn components(p: Seq<char>) -> Seq<Seq<char>> {
    let segs = pieces(p, '/');
    if p.len() > 0 && p[0] == '/' {
        seq!["/"@] + drop_dots(segs)
    } else if segs.len() > 0 && segs[0] == "."@ {
        seq!["."@] + drop_dots(segs.drop_first())
    } else {
        drop_dots(segs)
    }
}

/// `Path::starts_with`: the components of `base` begin those of `p`.
pub open spec fn path_starts_with(p: Seq<char>, base: Seq<char>) -> bool {
    let cp = components(p);
    let cb = components(base);
    cb.len() <= cp.len() && cp.take(cb.len() as int) == cb
}

/// `root.join(path)`: `path` itself when absolute, otherwise appended to
/// `root` with a separator unless `root` is empty or already ends in one.
pub open spec fn join_path(root: Seq<char>, path: Seq<char>) -> Seq<char> {
    if path.len() > 0 && path[0] == '/' {
        path
    } else if root.len() == 0 || root.last() == '/' {
        root + path
    } else {
        root + "/"@ + path
    }
}

/// Index of the first resolved denied path that is a prefix of `target`.
pub open spec fn first_prefix(target: Seq<char>, bases: Seq<Seq<char>>) -> Option<int>
    decreases bases.len(),
{
    if bases.len() == 0 {
        None
    } else {
        match first_prefix(target, bases.drop_last()) {
            Some(i) => Some(i),
            None => if path_starts_with(target, bases.last()) {
                Some(bases.len() - 1)
            } else {
                None
            },
        }
    }
}

pub proof fn lemma_first_prefix(target: Seq<char>, bases: Seq<Seq<char>>)
    ensures
        match first_prefix(target, bases) {
            Some(i) => 0 <= i < bases.len() && path_starts_with(target, bases[i]) && forall|j: int|
                0 <= j < i ==> !path_starts_with(target, #[trigger] bases[j]),
            None => forall|j: int|
                0 <= j < bases.len() ==> !path_starts_with(target, #[trigger] bases[j]),
        },
    decreases bases.len(),
{
    if bases.len() > 0 {
        let d = bases.drop_last();
        lemma_first_prefix(target, d);
        match first_prefix(target, d) {
            Some(i) => {
                assert forall|j: int| 0 <= j < i implies !path_starts_with(target, #[trigger] bases[j]) by {
                    assert(d[j] == bases[j]);
                }
                assert(d[i] == bases[i]);
            },
            None => {
                assert forall|j: int| 0 <= j < bases.len() - 1 implies !path_starts_with(target, #[trigger] bases[j]) by {
                    assert(d[j] == bases[j]);
                }
            },
        }
    }
}

/// Non-empty pieces of `s` between occurrences of `sep`.
pub fn split_on(s: &[char], sep: char) -> (r: Vec<Vec<char>>)
    ensures
        views(r@) == pieces(s@, sep),
{
    let mut out: Vec<Vec<char>> = Vec::new();
    let mut cur: Vec<char> = Vec::new();
    let mut i: usize = 0;
    proof {
        assert(s@.skip(0) =~= s@);
        assert(views(out@) =~= Seq::<Seq<char>>::empty());
        assert(cur@ =~= Seq::<char>::empty());
    }
    while i < s.len()
        invariant
            i <= s@.len(),
            pieces(s@, sep) == views(out@) + pieces_acc(cur@, s@.skip(i as int), sep),
        decreases s@.len() - i,
    {
        let ghost rest = s@.skip(i as int);
        proof {
            assert(rest.drop_first() =~= s@.skip(i + 1));
        }
        if s[i] == sep {
            proof {
                assert(pieces_acc(cur@, rest, sep) == (if cur@.len() == 0 {
                    seq![]
                } else {
                    seq![cur@]
                }) + pieces_acc(seq![], rest.drop_first(), sep));
            }
            if cur.len() > 0 {
                let ghost before = views(out@);
                let ghost cv = cur@;
                out.push(cur);
                proof {
                    assert(views(out@) =~= before + seq![cv]);
                    assert(views(out@) + pieces_acc(seq![], rest.drop_first(), sep) =~= before + (
                    seq![cv] + pieces_acc(seq![], rest.drop_first(), sep)));
                }
                cur = Vec::new();
                proof {
                    assert(cur@ =~= Seq::<char>::empty());
                }
            } else {
                proof {
                    assert(Seq::<Seq<char>>::empty() + pieces_acc(seq![], rest.drop_first(), sep)
                        =~= pieces_acc(seq![], rest.drop_first(), sep));
                    assert(cur@ =~= Seq::<char>::empty());
                }
            }
        } else {
            proof {
                assert(pieces_acc(cur@, rest, sep) == pieces_acc(
                    cur@.push(s@[i as int]),
                    rest.drop_first(),
                    sep,
                ));
            }
            cur.push(s[i]);
        }
        i = i + 1;
    }
    if cur.len() > 0 {
        let ghost before = views(out@);
        out.push(cur);
        proof {
            assert(views(out@) =~= before + seq![cur@]);
        }
    } else {
        proof {
            assert(views(out@) =~= views(out@) + Seq::<Seq<char>>::empty());
        }
    }
    out
}

/// The entries of `segs[from..]` that are not `"."`.
fn without_dots(segs: &Vec<Vec<char>>, from: usize) -> (r: Vec<Vec<char>>)
    requires
        from <= segs@.len(),
    ensures
        views(r@) == drop_dots(views(segs@).skip(from as int)),
{
    let dot: Vec<char> = chars_of(".");
    let mut out: Vec<Vec<char>> = Vec::new();
    let mut i = from;
    let ghost sv = views(segs@).skip(from as int);
    proof {
        assert(sv.take(0) =~= Seq::<Seq<char>>::empty());
        assert(views(out@) =~= Seq::<Seq<char>>::empty());
    }
    while i < segs.len()
        invariant
            from <= i <= segs@.len(),
            sv == views(segs@).skip(from as int),
            dot@ == "."@,
            views(out@) == drop_dots(sv.take(i - from)),
        decreases segs@.len() - i,
    {
        proof {
            assert(sv.take(i + 1 - from).drop_last() =~= sv.take(i - from));
            assert(sv.take(i + 1 - from).last() == segs@[i as int]@);
        }
        if !eq_chars(segs[i].as_slice(), dot.as_slice()) {
            let ghost before = views(out@);
            let c = copy_chars(segs[i].as_slice());
            out.push(c);
            proof {
                assert(views(out@) =~= before.push(segs@[i as int]@));
            }
        }
        i = i + 1;
    }
    proof {
        assert(sv.take(i - from) =~= sv);
    }
    out
}

fn copy_chars(s: &[char]) -> (r: Vec<char>)
    ensures
        r@ == s@,
{
    let mut r: Vec<char> = Vec::new();
    extend(&mut r, s);
    proof {
        assert(r@ =~= s@);
    }
    r
}

/// `Path::components`, each component as characters.
pub fn path_components(p: &[char]) -> (r: Vec<Vec<char>>)
    ensures
        views(r@) == components(p@),
{
    let segs = split_on(p, '/');
    proof {
        assert(views(segs@).skip(0) =~= views(segs@));
    }
    if p.len() > 0 && p[0] == '/' {
        let rest = without_dots(&segs, 0);
        let mut r: Vec<Vec<char>> = Vec::new();
        r.push(chars_of("/"));
        let mut i: usize = 0;
        while i < rest.len()
            invariant
                i <= rest@.len(),
                views(r@) == seq!["/"@] + views(rest@).take(i as int),
            decreases rest@.len() - i,
        {
            let ghost before = views(r@);
            r.push(copy_chars(rest[i].as_slice()));
            proof {
                assert(views(rest@).take(i + 1) =~= views(rest@).take(i as int).push(
                    rest@[i as int]@,
                ));
                assert(views(r@) =~= before.push(rest@[i as int]@));
            }
            i = i + 1;
        }
        proof {
            assert(views(rest@).take(i as int) =~= views(rest@));
        }
        r
    } else {
        let dot: Vec<char> = chars_of(".");
        if segs.len() > 0 && eq_chars(segs[0].as_slice(), dot.as_slice()) {
            let rest = without_dots(&segs, 1);
            proof {
                assert(views(segs@).skip(1) =~= views(segs@).drop_first());
            }
            let mut r: Vec<Vec<char>> = Vec::new();
            r.push(chars_of("."));
            let mut i: usize = 0;
            while i < rest.len()
                invariant
                    i <= rest@.len(),
                    views(r@) == seq!["."@] + views(rest@).take(i as int),
                decreases rest@.len() - i,
            {
                let ghost before = views(r@);
                r.push(copy_chars(rest[i].as_slice()));
                proof {
                    assert(views(rest@).take(i + 1) =~= views(rest@).take(i as int).push(
                        rest@[i as int]@,
                    ));
                    assert(views(r@) =~= before.push(rest@[i as int]@));
                }
                i = i + 1;
            }
            proof {
                assert(views(rest@).take(i as int) =~= views(rest@));
            }
            r
        } else {
            without_dots(&segs, 0)
        }
    }
}

/// `Path::starts_with`.
pub fn path_has_prefix(p: &[char], base: &[char]) -> (b: bool)
    ensures
        b == path_starts_with(p@, base@),
{
    let cp = path_components(p);
    let cb = path_components(base);
    if cb.len() > cp.len() {
        return false;
    }
    let mut i: usize = 0;
    while i < cb.len()
        invariant
            i <= cb@.len() <= cp@.len(),
            views(cp@) == components(p@),
            views(cb@) == components(base@),
            forall|j: int| 0 <= j < i ==> cp@[j]@ == cb@[j]@,
        decreases cb@.len() - i,
    {
        if !eq_chars(cp[i].as_slice(), cb[i].as_slice()) {
            proof {
                assert(views(cp@).take(cb@.len() as int)[i as int] == cp@[i as int]@);
                assert(views(cb@)[i as int] == cb@[i as int]@);
                assert(views(cp@).take(cb@.len() as int)[i as int] != views(cb@)[i as int]);
                assert(views(cp@).take(cb@.len() as int) != views(cb@));
            }
            return false;
        }
        i = i + 1;
    }
    proof {
        assert(views(cp@).take(cb@.len() as int) =~= views(cb@));
    }
    true
}

/// Resolve `path` against the workspace `root`: an absolute path stays as
/// it is, a relative one is joined to the root.
pub fn resolve_path(root: &str, path: &str) -> (r: String)
    ensures
        r@ == join_path(root@, path@),
{
    let rc = chars_of(root);
    let pc = chars_of(path);
    if pc.len() > 0 && pc[0] == '/' {
        return string_of(pc.as_slice());
    }
    let mut out = rc.clone();
    if !(rc.len() == 0 || rc[rc.len() - 1] == '/') {
        extend_str(&mut out, "/");
    }
    extend(&mut out, pc.as_slice());
    string_of(out.as_slice())
}

/// Judge a resolved `target` path against resolved denied and allowed
/// paths: a denied prefix refuses it whatever the allowed paths say; an
/// allowed prefix admits it; otherwise it is refused.
///
/// `denied_resolved[i]` is the resolved form of `denied_raw[i]`, which the
/// refusal names.
pub fn judge_path(
    target: &str,
    denied_raw: &Vec<String>,
    denied_resolved: &Vec<String>,
    allowed_resolved: &Vec<String>,
) -> (r: Result<String, McpError>)
    requires
        denied_raw@.len() == denied_resolved@.len(),
    ensures
        match first_prefix(target@, strs(denied_resolved@)) {
            Some(i) => r matches Err(McpError::SecurityViolation { details }) && details@
                == "Access denied to path: "@ + target@ + " (matches denied pattern: "@
                + denied_raw@[i]@ + ")"@,
            None => if first_prefix(target@, strs(allowed_resolved@)) is Some {
                r matches Ok(p) && p@ == target@
            } else {
                r matches Err(McpError::SecurityViolation { details }) && details@
                    == "Access denied to path: "@ + target@ + " (not in allowlist)"@
            },
        },
{
    let tc = chars_of(target);
    let mut i: usize = 0;
    while i < denied_resolved.len()
        invariant
            i <= denied_resolved@.len(),
            denied_raw@.len() == denied_resolved@.len(),
            tc@ == target@,
            first_prefix(target@, strs(denied_resolved@).take(i as int)) is None,
        decreases denied_resolved@.len() - i,
    {
        let dc = chars_of(denied_resolved[i].as_str());
        proof {
            assert(strs(denied_resolved@).take(i + 1).drop_last() =~= strs(denied_resolved@).take(
                i as int,
            ));
        }
        if path_has_prefix(tc.as_slice(), dc.as_slice()) {
            proof {
                lemma_prefix_first(target@, strs(denied_resolved@), i as int);
            }
            let mut msg = chars_of("Access denied to path: ");
            extend(&mut msg, tc.as_slice());
            extend_str(&mut msg, " (matches denied pattern: ");
            extend(&mut msg, chars_of(denied_raw[i].as_str()).as_slice());
            extend_str(&mut msg, ")");
            return Err(McpError::SecurityViolation { details: string_of(msg.as_slice()) });
        }
        i = i + 1;
    }
    proof {
        assert(strs(denied_resolved@).take(i as int) =~= strs(denied_resolved@));
    }
    let mut k: usize = 0;
    while k < allowed_resolved.len()
        invariant
            k <= allowed_resolved@.len(),
            tc@ == target@,
            first_prefix(target@, strs(denied_resolved@)) is None,
            first_prefix(target@, strs(allowed_resolved@).take(k as int)) is None,
        decreases allowed_resolved@.len() - k,
    {
        let ac = chars_of(allowed_resolved[k].as_str());
        proof {
            assert(strs(allowed_resolved@).take(k + 1).drop_last() =~= strs(
                allowed_resolved@,
            ).take(k as int));
        }
        if path_has_prefix(tc.as_slice(), ac.as_slice()) {
            proof {
                lemma_prefix_first(target@, strs(allowed_resolved@), k as int);
            }
            return Ok(string_of(tc.as_slice()));
        }
        k = k + 1;
    }
    proof {
        assert(strs(allowed_resolved@).take(k as int) =~= strs(allowed_resolved@));
    }
    let mut msg = chars_of("Access denied to path: ");
    extend(&mut msg, tc.as_slice());
    extend_str(&mut msg, " (not in allowlist)");
    Err(McpError::SecurityViolation { details: string_of(msg.as_slice()) })
}

proof fn lemma_prefix_first(target: Seq<char>, bases: Seq<Seq<char>>, i: int)
    requires
        0 <= i < bases.len(),
        first_prefix(target, bases.take(i)) is None,
        path_starts_with(target, bases[i]),
    ensures
        first_prefix(target, bases) == Some(i),
    decreases bases.len(),
{
    if bases.len() > i + 1 {
        let d = bases.drop_last();
        assert(d.take(i) =~= bases.take(i));
        assert(d[i] == bases[i]);
        lemma_prefix_first(target, d, i);
    } else {
        assert(bases.drop_last() =~= bases.take(i));
    }
}

} // verus!
