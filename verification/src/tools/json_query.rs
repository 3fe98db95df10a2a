//! Following a dotted path into a JSON (or TOML) document.
use vstd::prelude::*;
use crate::json::{member_index, Json};
use crate::text::{chars_of, extend_str, parse_unsigned, parse_unsigned_max, split_char, split_char_of, string_of, views};

verus! {

/// What a query gave.
#[derive(Debug)]
pub struct Output {
    pub success: bool,
    pub data: Option<Json>,
    pub error: Option<String>,
}

/// Follow `parts` from `v`: a member of an object by name, an element of an
/// array by index.
pub open spec fn walk(v: Json, parts: Seq<Seq<char>>) -> Option<Json>
    decreases parts.len(),
{
    if parts.len() == 0 {
        Some(v)
    } else {
        match v {
            Json::Object(es) => match member_index(es@, parts[0]) {
                Some(i) => walk(es@[i].1, parts.drop_first()),
                None => None,
            },
            Json::Array(items) => match parse_unsigned(parts[0], usize::MAX as nat) {
                Some(n) => if n < items@.len() {
                    walk(items@[n as int], parts.drop_first())
                } else {
                    None
                },
                None => None,
            },
            _ => None,
        }
    }
}

/// The value at the dot-separated path `query` in `value`.
pub fn query_value(value: &Json, query: &str) -> (r: Option<Json>)
    ensures
        match walk(*value, split_char(query@, '.')) {
            Some(v) => r matches Some(x) && x.deep_eq(v),
            None => r is None,
        },
{
    let parts = split_char_of(chars_of(query).as_slice(), '.');
    let ghost pv = views(parts@);
    let mut cur: &Json = value;
    let mut i: usize = 0;
    proof {
        assert(pv.skip(0) =~= pv);
    }
    while i < parts.len()
        invariant
            i <= parts@.len(),
            pv == views(parts@),
            pv == split_char(query@, '.'),
            walk(*value, pv) == walk(*cur, pv.skip(i as int)),
        decreases parts@.len() - i,
    {
        proof {
            assert(pv.skip(i as int)[0] == parts@[i as int]@);
            assert(pv.skip(i as int).drop_first() =~= pv.skip(i + 1));
        }
        let part = string_of(parts[i].as_slice());
        match cur {
            Json::Object(es) => {
                match cur.get(part.as_str()) {
                    Some(next) => {
                        proof {
                            crate::json::lemma_member_index(es@, part@);
                        }
                        cur = next;
                    },
                    None => {
                        return None;
                    },
                }
            },
            Json::Array(items) => {
                match parse_unsigned_max(parts[i].as_slice(), usize::MAX as u64) {
                    Some(n) => {
                        let n = n as usize;
                        if n < items.len() {
                            cur = &items[n];
                        } else {
                            return None;
                        }
                    },
                    None => {
                        return None;
                    },
                }
            },
            _ => {
                return None;
            },
        }
        i = i + 1;
    }
    proof {
        assert(pv.skip(i as int) =~= Seq::<Seq<char>>::empty());
    }
    Some(cur.duplicate())
}

/// Answer a query on a parsed document: the whole document when there is
/// no query, the value at the path, or an error naming the path.
pub fn answer(value: &Json, query: Option<&str>) -> (r: Output)
    ensures
        match query {
            None => r.success && (r.data matches Some(d) && d.deep_eq(*value)) && r.error is None,
            Some(q) => match walk(*value, split_char(q@, '.')) {
                Some(v) => r.success && (r.data matches Some(d) && d.deep_eq(v)) && r.error is None,
                None => !r.success && r.data is None && (r.error matches Some(e) && e@
                    == "Query path not found: "@ + q@),
            },
        },
{
    match query {
        None => Output { success: true, data: Some(value.duplicate()), error: None },
        Some(q) => match query_value(value, q) {
            Some(d) => Output { success: true, data: Some(d), error: None },
            None => {
                let mut e = chars_of("Query path not found: ");
                extend_str(&mut e, q);
                Output { success: false, data: None, error: Some(string_of(e.as_slice())) }
            },
        },
    }
}

/// The `json_query` tool.
pub struct JsonQuery;

impl JsonQuery {
    /// The tool's name.
    pub fn name() -> (r: &'static str)
        ensures
            r@ == "json_query"@,
    {
        "json_query"
    }

    /// The tool's description.
    pub fn description() -> (r: &'static str)
        ensures
            r@ == "Read and query JSON files with dot-path navigation"@,
    {
        "Read and query JSON files with dot-path navigation"
    }
}

} // verus!
