//! Masking of sensitive environment variables.
use vstd::prelude::*;
use crate::text::{
    byte_len, char_width, chars_of, contains, contains_str, extend_str, slice_copy, string_of,
    to_uppercase, upper, utf8_width,
};

verus! {

/// A variable as reported to the client.
#[derive(Debug)]
pub struct EnvVar {
    pub name: String,
    pub value: String,
}

/// Fragments of names whose values are masked.
pub open spec fn sensitive_patterns() -> Seq<Seq<char>> {
    seq![
        "SECRET"@,
        "PASSWORD"@,
        "PASSWD"@,
        "TOKEN"@,
        "API_KEY"@,
        "APIKEY"@,
        "PRIVATE"@,
        "CREDENTIAL"@,
        "AUTH"@,
    ]
}

/// The uppercased name contains one of the sensitive fragments.
pub open spec fn sensitive(name: Seq<char>) -> bool {
    exists|i: int|
        0 <= i < sensitive_patterns().len() && contains(upper(name), #[trigger] sensitive_patterns()[i])
}

/// Some prefix of `value` is exactly two bytes long.
pub open spec fn two_byte_prefix(value: Seq<char>) -> bool {
    exists|k: int| 0 <= k <= value.len() && byte_len(#[trigger] value.take(k)) == 2
}

/// The value shown for `name`: sensitive values of at most four bytes are
/// fully masked, longer ones keep their first two bytes; others are shown.
pub open spec fn masked(name: Seq<char>, value: Seq<char>) -> Seq<char> {
    if !sensitive(name) {
        value
    } else if byte_len(value) <= 4 {
        "****"@
    } else {
        value.take(choose|k: int| 0 <= k <= value.len() && byte_len(#[trigger] value.take(k)) == 2)
            + "****"@
    }
}

/// Whether the variable's value must be masked.
pub fn is_sensitive(name: &str) -> (b: bool)
    ensures
        b == sensitive(name@),
{
    let up = to_uppercase(name);
    let uc = chars_of(up.as_str());
    let patterns: [&str; 9] = [
        "SECRET",
        "PASSWORD",
        "PASSWD",
        "TOKEN",
        "API_KEY",
        "APIKEY",
        "PRIVATE",
        "CREDENTIAL",
        "AUTH",
    ];
    proof {
        assert(patterns@.len() == 9);
        assert(forall|i: int| 0 <= i < 9 ==> patterns@[i]@ == #[trigger] sensitive_patterns()[i]);
    }
    let mut i: usize = 0;
    while i < 9
        invariant
            i <= 9,
            uc@ == upper(name@),
            forall|i: int| 0 <= i < 9 ==> patterns@[i]@ == #[trigger] sensitive_patterns()[i],
            forall|j: int| 0 <= j < i ==> !contains(upper(name@), #[trigger] sensitive_patterns()[j]),
        decreases 9 - i,
    {
        if contains_str(uc.as_slice(), patterns[i]) {
            proof {
                assert(contains(upper(name@), sensitive_patterns()[i as int]));
            }
            return true;
        }
        i = i + 1;
    }
    false
}

proof fn lemma_byte_len_take_mono(s: Seq<char>, a: int, b: int)
    requires
        0 <= a < b <= s.len(),
    ensures
        byte_len(s.take(a)) < byte_len(s.take(b)),
    decreases b - a,
{
    assert(s.take(b).drop_last() =~= s.take(b - 1));
    if a < b - 1 {
        lemma_byte_len_take_mono(s, a, b - 1);
    }
}

/// The value to report for `name`.
pub fn mask_value(name: &str, value: &str) -> (r: String)
    requires
        sensitive(name@) && byte_len(value@) > 4 ==> two_byte_prefix(value@),
    ensures
        r@ == masked(name@, value@),
{
    if !is_sensitive(name) {
        return crate::text::string_from(value);
    }
    let vc = chars_of(value);
    if !crate::text::byte_len_exceeds(vc.as_slice(), 4) {
        return crate::text::string_from("****");
    }
    let ghost k0 = choose|k: int| 0 <= k <= value@.len() && byte_len(#[trigger] value@.take(k)) == 2;
    let mut i: usize = 0;
    let mut acc: usize = 0;
    proof {
        assert(value@.take(0) =~= Seq::<char>::empty());
    }
    while acc < 2
        invariant
            vc@ == value@,
            0 <= k0 <= value@.len(),
            byte_len(value@.take(k0)) == 2,
            i <= k0,
            acc == byte_len(value@.take(i as int)),
        decreases k0 - i,
    {
        proof {
            if i == k0 {
                assert(false);
            }
            assert(value@.take(i + 1).drop_last() =~= value@.take(i as int));
        }
        acc = acc + char_width(vc[i]);
        assert(i < vc.len());
        i = i + 1;
        proof {
            if i > k0 {
                assert(false);
            }
            if i < k0 {
                lemma_byte_len_take_mono(value@, i as int, k0);
            }
        }
    }
    proof {
        if i < k0 {
            lemma_byte_len_take_mono(value@, i as int, k0);
        }
        assert(i == k0);
    }
    let mut out = slice_copy(vc.as_slice(), 0, i);
    extend_str(&mut out, "****");
    string_of(out.as_slice())
}

fn has_two_byte_prefix(v: &[char]) -> (b: bool)
    ensures
        b == two_byte_prefix(v@),
{
    if v.len() == 0 {
        proof {
            assert forall|k: int| 0 <= k <= v@.len() implies byte_len(#[trigger] v@.take(k)) != 2 by {
                assert(v@.take(k) =~= Seq::<char>::empty());
            }
        }
        return false;
    }
    let w0 = char_width(v[0]);
    proof {
        assert(v@.take(0) =~= Seq::<char>::empty());
        assert(v@.take(1).drop_last() =~= v@.take(0));
        assert(v@.take(1).last() == v@[0]);
        assert(byte_len(v@.take(0)) == 0);
        assert(byte_len(v@.take(1)) == byte_len(v@.take(1).drop_last()) + utf8_width(v@.take(1).last()));
        assert(byte_len(v@.take(1)) == w0);
    }
    if w0 == 2 {
        assert(byte_len(v@.take(1)) == 2);
        return true;
    }
    if w0 > 2 || v.len() < 2 {
        proof {
            assert forall|k: int| 0 <= k <= v@.len() implies byte_len(#[trigger] v@.take(k)) != 2 by {
                if k >= 2 {
                    lemma_byte_len_take_mono(v@, 1, k);
                } else if k == 0 {
                    assert(v@.take(0) =~= Seq::<char>::empty());
                }
            }
        }
        return false;
    }
    let w1 = char_width(v[1]);
    proof {
        assert(v@.take(2).drop_last() =~= v@.take(1));
        assert(v@.take(2).last() == v@[1]);
        assert(byte_len(v@.take(2)) == w0 + w1);
    }
    if w1 == 1 {
        assert(byte_len(v@.take(2)) == 2);
        return true;
    }
    proof {
        assert forall|k: int| 0 <= k <= v@.len() implies byte_len(#[trigger] v@.take(k)) != 2 by {
            if k > 2 {
                lemma_byte_len_take_mono(v@, 2, k);
            } else if k == 0 {
                assert(v@.take(0) =~= Seq::<char>::empty());
            }
        }
    }
    false
}

/// The value to report for `name`, or `None` for a sensitive value of
/// more than four bytes whose first two bytes do not end a character.
pub fn mask_checked(name: &str, value: &str) -> (r: Option<String>)
    ensures
        (sensitive(name@) && byte_len(value@) > 4 && !two_byte_prefix(value@)) ==> r is None,
        !(sensitive(name@) && byte_len(value@) > 4 && !two_byte_prefix(value@)) ==> (r matches Some(m) && m@
            == masked(name@, value@)),
{
    let vc = chars_of(value);
    if is_sensitive(name) && crate::text::byte_len_exceeds(vc.as_slice(), 4) && !has_two_byte_prefix(
        vc.as_slice(),
    ) {
        return None;
    }
    Some(mask_value(name, value))
}

/// The variables reported for a listing.
#[derive(Debug)]
pub struct Output {
    pub variables: Vec<EnvVar>,
    pub count: u32,
    pub error: Option<String>,
}

/// The report for one named variable, given its value if it is set.
pub fn report_one(name: &str, value: Option<&str>) -> (r: Output)
    requires
        value matches Some(v) ==> (sensitive(name@) && byte_len(v@) > 4 ==> two_byte_prefix(v@)),
    ensures
        match value {
            Some(v) => r.count == 1 && r.error is None && r.variables@.len() == 1 && r.variables@[0].name@
                == name@ && r.variables@[0].value@ == masked(name@, v@),
            None => r.count == 0 && r.variables@.len() == 0 && (r.error matches Some(e) && e@
                == "Environment variable '"@ + name@ + "' not found"@),
        },
{
    match value {
        Some(v) => {
            let mut vars: Vec<EnvVar> = Vec::new();
            vars.push(EnvVar { name: crate::text::string_from(name), value: mask_value(name, v) });
            Output { variables: vars, count: 1, error: None }
        },
        None => {
            let mut e = chars_of("Environment variable '");
            crate::text::extend_str(&mut e, name);
            crate::text::extend_str(&mut e, "' not found");
            Output { variables: Vec::new(), count: 0, error: Some(string_of(e.as_slice())) }
        },
    }
}

/// The `read_env` tool.
pub struct ReadEnv;

impl ReadEnv {
    /// The tool's name.
    pub fn name() -> (r: &'static str)
        ensures
            r@ == "read_env"@,
    {
        "read_env"
    }

    /// The tool's description.
    pub fn description() -> (r: &'static str)
        ensures
            r@ == "Read environment variables with optional filtering"@,
    {
        "Read environment variables with optional filtering"
    }
}

/// Law: a sensitive variable is shown as `****` after at most its first
/// two bytes.
pub proof fn law_mask_hides(name: Seq<char>, value: Seq<char>)
    requires
        sensitive(name),
        byte_len(value) > 4 ==> two_byte_prefix(value),
    ensures
        crate::text::ends_with(masked(name, value), "****"@),
        byte_len(masked(name, value)) <= 6,
{
    reveal_strlit("****");
    let stars = "****"@;
    assert(byte_len(stars) == 4) by {
        reveal_with_fuel(byte_len, 5);
        assert(stars.drop_last().drop_last().drop_last().drop_last() =~= Seq::<char>::empty());
    }
    if byte_len(value) <= 4 {
        assert(masked(name, value) == stars);
        assert(stars.skip(0) =~= stars);
    } else {
        let k = choose|k: int| 0 <= k <= value.len() && byte_len(#[trigger] value.take(k)) == 2;
        let m = value.take(k) + stars;
        assert(masked(name, value) == m);
        crate::text::lemma_byte_len_concat(value.take(k), stars);
        assert(m.skip(m.len() - 4) =~= stars);
    }
}

/// The sort key of a variable: its name.
pub open spec fn var_key(v: EnvVar) -> Seq<u32> {
    crate::order::codes(v.name@)
}

/// The sort keys of the variables.
pub open spec fn var_keys(vs: Seq<EnvVar>) -> Seq<Seq<u32>> {
    vs.map_values(|v: EnvVar| var_key(v))
}

fn copy_var(v: &EnvVar) -> (r: EnvVar)
    ensures
        r.name@ == v.name@ && r.value@ == v.value@,
{
    EnvVar { name: v.name.clone(), value: v.value.clone() }
}

/// The variables sorted by name, stably.
pub fn sort_by_name(vars: &Vec<EnvVar>) -> (r: Vec<EnvVar>)
    ensures
        exists|p: Seq<int>|
            #[trigger] crate::order::stable_order(var_keys(vars@), p) && r@.len() == p.len()
                && forall|i: int|
                0 <= i < p.len() ==> (#[trigger] r@[i]).name@ == vars@[p[i]].name@ && r@[i].value@ == vars@[p[i]].value@,
{
    let mut keys: Vec<Vec<u32>> = Vec::new();
    let mut i: usize = 0;
    while i < vars.len()
        invariant
            i <= vars@.len(),
            keys@.len() == i,
            forall|k: int| 0 <= k < i ==> (#[trigger] keys@[k])@ == var_key(vars@[k]),
        decreases vars@.len() - i,
    {
        keys.push(crate::order::char_codes(crate::text::chars_of(vars[i].name.as_str()).as_slice()));
        i = i + 1;
    }
    let order = crate::order::stable_sort_order(&keys);
    let ghost ks = keys@.map_values(|k: Vec<u32>| k@);
    proof {
        assert(ks =~= var_keys(vars@));
    }
    let mut r: Vec<EnvVar> = Vec::new();
    let mut j: usize = 0;
    while j < order.len()
        invariant
            j <= order@.len(),
            crate::order::stable_order(ks, order@.map_values(|i: usize| i as int)),
            ks.len() == vars@.len(),
            r@.len() == j,
            forall|q: int| 0 <= q < j ==> (#[trigger] r@[q]).name@ == vars@[order@[q] as int].name@
                && r@[q].value@ == vars@[order@[q] as int].value@,
        decreases order@.len() - j,
    {
        proof {
            assert(order@.map_values(|i: usize| i as int)[j as int] == order@[j as int] as int);
        }
        r.push(copy_var(&vars[order[j]]));
        j = j + 1;
    }
    proof {
        let p = order@.map_values(|i: usize| i as int);
        assert forall|q: int| 0 <= q < p.len() implies (#[trigger] r@[q]).name@ == vars@[p[q]].name@ && r@[q].value@
            == vars@[p[q]].value@ by {
            assert(p[q] == order@[q] as int);
        }
        assert(crate::order::stable_order(var_keys(vars@), p));
    }
    r
}

/// Whether a variable named `name` is listed under the filter `prefix`:
/// every variable without a filter, else those whose name starts with it.
pub fn env_selected(name: &str, prefix: Option<&str>) -> (b: bool)
    ensures
        prefix is None ==> b,
        prefix matches Some(p) ==> b == crate::text::starts_with(name@, p@),
{
    match prefix {
        None => true,
        Some(p) => crate::text::starts_with_str(chars_of(name).as_slice(), p),
    }
}

} // verus!
