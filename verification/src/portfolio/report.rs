//! What the portfolio tools report: their arguments, the shape of search
//! results and briefs, and the project-health figures read from the
//! workspace's plan index, drift logs, cache age and corpus directories.
use vstd::prelude::*;
use crate::json::Json;
use crate::mcp::validation::signed_dec;
use crate::portfolio::catalog::{DEFAULT_MAX_CONTENT_LEN, DEFAULT_TOP_K};
use crate::portfolio::rpc::is_str;
use crate::rag::types::RankedChunk;
use crate::text::{
    byte_len, byte_len_exceeds, chars_of, contains, dec, decimal, extend, extend_str, lines, lines_of,
    list_contains, parse_unsigned, parse_unsigned_max, slice_copy, starts_with, string_from, string_of,
    strs, upper, uppercase_chars, contains_str,
};

verus! {

/// How many results a brief asks for.
pub const BRIEF_TOP_K: usize = 3;

/// How many characters of each result a brief keeps.
pub const BRIEF_PREVIEW_LEN: usize = 80;

/// The keys of an object's members, in order.
pub open spec fn keys(v: Json) -> Seq<Seq<char>> {
    match v {
        Json::Object(es) => es@.map_values(|e: (String, Json)| e.0@),
        _ => seq![],
    }
}

/// The value of an object's member `i`.
pub open spec fn val(v: Json, i: int) -> Json {
    match v {
        Json::Object(es) => es@[i].1,
        _ => Json::Null,
    }
}

/// `v` is the number `n`.
pub open spec fn is_num(v: Json, n: int) -> bool {
    v matches Json::Number(t) && t@ == signed_dec(n)
}

/// `v` is the string `s`, or `null` when there is none.
pub open spec fn is_opt_str(v: Json, s: Option<Seq<char>>) -> bool {
    match s {
        Some(x) => is_str(v, x),
        None => v is Null,
    }
}

pub(crate) fn num_u64(n: u64) -> (r: Json)
    ensures
        is_num(r, n as int),
{
    Json::Number(string_of(decimal(n).as_slice()))
}

fn num_i64(n: i64) -> (r: Json)
    ensures
        is_num(r, n as int),
{
    if n < 0 {
        let m: i128 = -(n as i128);
        let mut t = chars_of("-");
        extend(&mut t, decimal(m as u64).as_slice());
        Json::Number(string_of(t.as_slice()))
    } else {
        Json::Number(string_of(decimal(n as u64).as_slice()))
    }
}

fn str_doc(s: &str) -> (r: Json)
    ensures
        is_str(r, s@),
{
    Json::Str(string_from(s))
}

fn member(es: &mut Vec<(String, Json)>, key: &str, v: Json)
    ensures
        final(es)@ == old(es)@.push((final(es)@.last().0, v)),
        final(es)@.last().0@ == key@,
{
    es.push((string_from(key), v));
}

/// `Value::as_u64` of an optional document: a number written as an
/// unsigned integer that fits 64 bits.
pub open spec fn as_u64(v: Option<Json>) -> Option<nat> {
    match v {
        Some(Json::Number(t)) => parse_unsigned(t@, u64::MAX as nat),
        _ => None,
    }
}

fn get_u64(args: &Json, key: &str) -> (r: Option<u64>)
    ensures
        match as_u64(args.spec_get(key@)) {
            Some(n) => r == Some(n as u64),
            None => r is None,
        },
{
    match args.get(key) {
        Some(Json::Number(t)) => parse_unsigned_max(chars_of(t.as_str()).as_slice(), u64::MAX),
        _ => None,
    }
}

/// The arguments of a search.
#[derive(Debug)]
pub struct QueryArgs {
    pub query: String,
    /// Restrict the search to this source kind.
    pub corpus: Option<String>,
    pub top_k: usize,
    /// Keep at most this many characters of each result; `None` keeps all.
    pub max_content_len: Option<usize>,
}

/// Read a search's arguments: `query` is required; `top_k` defaults to
/// 5; `max_content_length` defaults to 500, and 0 means no limit.
pub fn query_args(args: &Json) -> (r: Result<QueryArgs, String>)
    ensures
        args.str_field("query"@) is None ==> (r matches Err(e) && e@ == "Missing 'query' parameter"@),
        args.str_field("query"@) matches Some(q) ==> (r matches Ok(a) && a.query@ == q && match args.str_field(
            "corpus"@,
        ) {
            Some(c) => a.corpus matches Some(x) && x@ == c,
            None => a.corpus is None,
        } && a.top_k == match as_u64(args.spec_get("top_k"@)) {
            Some(n) => (n as u64) as usize,
            None => DEFAULT_TOP_K,
        } && a.max_content_len == match as_u64(args.spec_get("max_content_length"@)) {
            Some(n) => if n == 0 {
                None
            } else {
                Some((n as u64) as usize)
            },
            None => Some(DEFAULT_MAX_CONTENT_LEN),
        }),
{
    let query = match args.get_str("query") {
        Some(q) => q,
        None => {
            return Err(string_from("Missing 'query' parameter"));
        },
    };
    let corpus = args.get_str("corpus");
    let top_k: usize = match get_u64(args, "top_k") {
        Some(n) => n as usize,
        None => DEFAULT_TOP_K,
    };
    let max_content_len: Option<usize> = match get_u64(args, "max_content_length") {
        Some(n) => if n == 0 {
            None
        } else {
            Some(n as usize)
        },
        None => Some(DEFAULT_MAX_CONTENT_LEN),
    };
    Ok(QueryArgs { query, corpus, top_k, max_content_len })
}

/// Read a required string argument, refusing its absence with
/// `Missing '<key>' parameter`.
pub fn required_str(args: &Json, key: &str) -> (r: Result<String, String>)
    ensures
        match args.str_field(key@) {
            Some(s) => r matches Ok(x) && x@ == s,
            None => r matches Err(e) && e@ == "Missing '"@ + key@ + "' parameter"@,
        },
{
    match args.get_str(key) {
        Some(s) => Ok(s),
        None => {
            let mut t = chars_of("Missing '");
            extend_str(&mut t, key);
            extend_str(&mut t, "' parameter");
            Err(string_of(t.as_slice()))
        },
    }
}

/// A result's content as shown: when it is longer than `max` bytes, its
/// first `max` characters (all of them when it has fewer) marked as cut.
pub open spec fn shown_content(content: Seq<char>, max: Option<usize>) -> (Seq<char>, bool) {
    match max {
        Some(m) => if byte_len(content) > m {
            (if m < content.len() {
                content.take(m as int)
            } else {
                content
            }, true)
        } else {
            (content, false)
        },
        None => (content, false),
    }
}

/// One search result as the tools report it:
/// `{"id", "corpus", "source_path", "content", "score", "truncated"}`.
pub fn result_entry(c: &RankedChunk, score: Json, max_content_len: Option<usize>) -> (r: Json)
    requires
        match max_content_len {
            Some(m) => m + 4 <= usize::MAX,
            None => true,
        },
    ensures
        keys(r) == seq!["id"@, "corpus"@, "source_path"@, "content"@, "score"@, "truncated"@],
        is_num(val(r, 0), c.chunk_id as int),
        is_str(val(r, 1), c.source_kind@),
        is_str(val(r, 2), c.source_path@),
        is_str(val(r, 3), shown_content(c.content@, max_content_len).0),
        val(r, 4) == score,
        val(r, 5) == Json::Bool(shown_content(c.content@, max_content_len).1),
{
    let cc = chars_of(c.content.as_str());
    let (content, truncated) = match max_content_len {
        Some(m) => if byte_len_exceeds(cc.as_slice(), m) {
            let k = if m < cc.len() {
                m
            } else {
                cc.len()
            };
            proof {
                if m < cc@.len() {
                    assert(cc@.take(m as int) =~= cc@.subrange(0, k as int));
                } else {
                    assert(cc@ =~= cc@.subrange(0, k as int));
                }
            }
            (string_of(slice_copy(cc.as_slice(), 0, k).as_slice()), true)
        } else {
            (c.content.clone(), false)
        },
        None => (c.content.clone(), false),
    };
    let mut es: Vec<(String, Json)> = Vec::new();
    member(&mut es, "id", num_i64(c.chunk_id));
    member(&mut es, "corpus", Json::Str(c.source_kind.clone()));
    member(&mut es, "source_path", Json::Str(c.source_path.clone()));
    member(&mut es, "content", Json::Str(content));
    member(&mut es, "score", score);
    member(&mut es, "truncated", Json::Bool(truncated));
    let r = Json::Object(es);
    proof {
        assert(keys(r) =~= seq!["id"@, "corpus"@, "source_path"@, "content"@, "score"@, "truncated"@]);
    }
    r
}

/// A result's corpus, `unknown` when it names none.
pub open spec fn corpus_of(r: Json) -> Seq<char> {
    match r.str_field("corpus"@) {
        Some(c) => c,
        None => "unknown"@,
    }
}

/// The corpora of `rs`, each once, in order of first appearance.
pub open spec fn first_corpora(rs: Seq<Json>) -> Seq<Seq<char>>
    decreases rs.len(),
{
    if rs.len() == 0 {
        seq![]
    } else {
        let d = first_corpora(rs.drop_last());
        let c = corpus_of(rs.last());
        if d.contains(c) {
            d
        } else {
            d.push(c)
        }
    }
}

/// The string held, or `d`.
pub open spec fn or_else(o: Option<Seq<char>>, d: Seq<char>) -> Seq<char> {
    match o {
        Some(x) => x,
        None => d,
    }
}

/// `b` is the brief of result `r`: `{"path", "corpus", "preview", "score"}`
/// with missing strings empty and a missing score `null`.
pub open spec fn brief_is(b: Json, r: Json) -> bool {
    &&& keys(b) == seq!["path"@, "corpus"@, "preview"@, "score"@]
    &&& is_str(val(b, 0), or_else(r.str_field("source_path"@), ""@))
    &&& is_str(val(b, 1), corpus_of(r))
    &&& is_str(val(b, 2), or_else(r.str_field("content"@), ""@))
    &&& match r.spec_get("score"@) {
        Some(s) => val(b, 3).deep_eq(s),
        None => val(b, 3) is Null,
    }
}

fn str_or(r: &Json, key: &str, default: &str) -> (s: String)
    ensures
        s@ == match r.str_field(key@) {
            Some(x) => x,
            None => default@,
        },
{
    match r.get_str(key) {
        Some(x) => x,
        None => string_from(default),
    }
}

fn brief(r: &Json) -> (b: Json)
    ensures
        brief_is(b, *r),
{
    let corpus = str_or(r, "corpus", "unknown");
    let mut es: Vec<(String, Json)> = Vec::new();
    member(&mut es, "path", Json::Str(str_or(r, "source_path", "")));
    member(&mut es, "corpus", Json::Str(corpus));
    member(&mut es, "preview", Json::Str(str_or(r, "content", "")));
    let score = match r.get("score") {
        Some(s) => s.duplicate(),
        None => Json::Null,
    };
    member(&mut es, "score", score);
    let b = Json::Object(es);
    proof {
        assert(keys(b) =~= seq!["path"@, "corpus"@, "preview"@, "score"@]);
    }
    b
}

/// The hint at the end of a brief.
pub open spec fn brief_hint() -> Seq<char> {
    "Use query_rag with corpus filter and top_k for detailed content"@
}

/// The brief for `task` from its search results: the corpora they come
/// from, each once, and a short entry per result.
pub fn context_brief_response(task: &str, results: &Vec<Json>) -> (r: Json)
    ensures
        keys(r) == seq!["success"@, "task"@, "relevant_corpora"@, "top_documents"@, "hint"@],
        val(r, 0) == Json::Bool(true),
        is_str(val(r, 1), task@),
        val(r, 2) matches Json::Array(cs) && cs@.len() == first_corpora(results@).len() && forall|i: int|
            0 <= i < cs@.len() ==> is_str(#[trigger] cs@[i], first_corpora(results@)[i]),
        val(r, 3) matches Json::Array(bs) && bs@.len() == results@.len() && forall|i: int|
            0 <= i < bs@.len() ==> brief_is(#[trigger] bs@[i], results@[i]),
        is_str(val(r, 4), brief_hint()),
{
    let mut corpora: Vec<String> = Vec::new();
    let mut briefs: Vec<Json> = Vec::new();
    let mut i: usize = 0;
    while i < results.len()
        invariant
            i <= results@.len(),
            strs(corpora@) == first_corpora(results@.take(i as int)),
            briefs@.len() == i,
            forall|k: int| 0 <= k < i ==> brief_is(#[trigger] briefs@[k], results@[k]),
        decreases results@.len() - i,
    {
        proof {
            assert(results@.take(i + 1).drop_last() =~= results@.take(i as int));
        }
        let c = str_or(&results[i], "corpus", "unknown");
        if !list_contains(&corpora, c.as_str()) {
            let ghost before = corpora@;
            corpora.push(c);
            proof {
                assert(strs(corpora@) =~= strs(before).push(c@));
            }
        }
        briefs.push(brief(&results[i]));
        i = i + 1;
    }
    proof {
        assert(results@.take(i as int) =~= results@);
    }
    let mut cs: Vec<Json> = Vec::new();
    let mut j: usize = 0;
    while j < corpora.len()
        invariant
            j <= corpora@.len(),
            cs@.len() == j,
            forall|k: int| 0 <= k < j ==> is_str(#[trigger] cs@[k], corpora@[k]@),
        decreases corpora@.len() - j,
    {
        cs.push(Json::Str(corpora[j].clone()));
        j = j + 1;
    }
    proof {
        assert forall|k: int| 0 <= k < cs@.len() implies is_str(#[trigger] cs@[k], first_corpora(results@)[k]) by {
            assert(strs(corpora@)[k] == corpora@[k]@);
        }
    }
    let mut es: Vec<(String, Json)> = Vec::new();
    member(&mut es, "success", Json::Bool(true));
    member(&mut es, "task", str_doc(task));
    member(&mut es, "relevant_corpora", Json::Array(cs));
    member(&mut es, "top_documents", Json::Array(briefs));
    member(&mut es, "hint", str_doc("Use query_rag with corpus filter and top_k for detailed content"));
    let r = Json::Object(es);
    proof {
        assert(keys(r) =~= seq!["success"@, "task"@, "relevant_corpora"@, "top_documents"@, "hint"@]);
    }
    r
}

/// The answer to a search: the query, the corpus filter (`null` without
/// one), the results and their number.
pub fn query_rag_response(query: &str, corpus: Option<&str>, results: Vec<Json>) -> (r: Json)
    ensures
        keys(r) == seq!["success"@, "query"@, "corpus_filter"@, "results"@, "result_count"@],
        val(r, 0) == Json::Bool(true),
        is_str(val(r, 1), query@),
        is_opt_str(val(r, 2), match corpus {
            Some(c) => Some(c@),
            None => None,
        }),
        val(r, 3) == Json::Array(results),
        is_num(val(r, 4), results@.len() as int),
{
    let n = results.len();
    let filter = match corpus {
        Some(c) => str_doc(c),
        None => Json::Null,
    };
    let mut es: Vec<(String, Json)> = Vec::new();
    member(&mut es, "success", Json::Bool(true));
    member(&mut es, "query", str_doc(query));
    member(&mut es, "corpus_filter", filter);
    member(&mut es, "results", Json::Array(results));
    member(&mut es, "result_count", num_u64(n as u64));
    let r = Json::Object(es);
    proof {
        assert(keys(r) =~= seq!["success"@, "query"@, "corpus_filter"@, "results"@, "result_count"@]);
    }
    r
}

/// The answer listing the corpora and their number.
pub fn list_corpora_response(corpora: &Vec<String>) -> (r: Json)
    ensures
        keys(r) == seq!["success"@, "corpora"@, "corpus_count"@],
        val(r, 0) == Json::Bool(true),
        val(r, 1) matches Json::Array(cs) && cs@.len() == corpora@.len() && forall|i: int|
            0 <= i < cs@.len() ==> is_str(#[trigger] cs@[i], corpora@[i]@),
        is_num(val(r, 2), corpora@.len() as int),
{
    let mut cs: Vec<Json> = Vec::new();
    let mut i: usize = 0;
    while i < corpora.len()
        invariant
            i <= corpora@.len(),
            cs@.len() == i,
            forall|k: int| 0 <= k < i ==> is_str(#[trigger] cs@[k], corpora@[k]@),
        decreases corpora@.len() - i,
    {
        cs.push(Json::Str(corpora[i].clone()));
        i = i + 1;
    }
    let mut es: Vec<(String, Json)> = Vec::new();
    member(&mut es, "success", Json::Bool(true));
    member(&mut es, "corpora", Json::Array(cs));
    member(&mut es, "corpus_count", num_u64(corpora.len() as u64));
    let r = Json::Object(es);
    proof {
        assert(keys(r) =~= seq!["success"@, "corpora"@, "corpus_count"@]);
    }
    r
}

/// `{"success": true, key: value}`.
pub fn success_with(key: &str, value: Json) -> (r: Json)
    ensures
        keys(r) == seq!["success"@, key@],
        val(r, 0) == Json::Bool(true),
        val(r, 1) == value,
{
    let mut es: Vec<(String, Json)> = Vec::new();
    member(&mut es, "success", Json::Bool(true));
    member(&mut es, key, value);
    let r = Json::Object(es);
    proof {
        assert(keys(r) =~= seq!["success"@, key@]);
    }
    r
}

/// A row of the plan index: a table line that is neither the separator
/// nor the header.
pub open spec fn module_row(l: Seq<char>) -> bool {
    starts_with(l, "|"@) && !contains(l, "---"@) && !contains(l, "Module"@)
}

/// A module row marked done, in any case.
pub open spec fn done_row(l: Seq<char>) -> bool {
    contains(upper(l), "| DONE"@)
}

/// The module rows and done rows among the lines `ls`.
pub open spec fn plan_tally(ls: Seq<Seq<char>>) -> (nat, nat)
    decreases ls.len(),
{
    if ls.len() == 0 {
        (0, 0)
    } else {
        let t = plan_tally(ls.drop_last());
        let l = ls.last();
        if module_row(l) {
            (t.0 + 1, t.1 + if done_row(l) {
                1nat
            } else {
                0nat
            })
        } else {
            t
        }
    }
}

/// Law: a plan index never has more done modules than modules, nor more
/// modules than lines.
pub proof fn lemma_plan_tally_bound(ls: Seq<Seq<char>>)
    ensures
        plan_tally(ls).1 <= plan_tally(ls).0 <= ls.len(),
    decreases ls.len(),
{
    if ls.len() > 0 {
        lemma_plan_tally_bound(ls.drop_last());
    }
}

/// The module rows of a plan index and how many of them are done.
pub fn plan_counts(content: &str) -> (r: (u32, u32))
    requires
        lines_of(content@).len() <= u32::MAX,
    ensures
        r.0 == plan_tally(lines_of(content@)).0,
        r.1 == plan_tally(lines_of(content@)).1,
{
    let ls = lines(chars_of(content).as_slice());
    let ghost lv = crate::text::views(ls@);
    let mut total: u32 = 0;
    let mut done: u32 = 0;
    let mut i: usize = 0;
    while i < ls.len()
        invariant
            i <= ls@.len(),
            lv == crate::text::views(ls@),
            lv == lines_of(content@),
            lv.len() <= u32::MAX,
            total == plan_tally(lv.take(i as int)).0,
            done == plan_tally(lv.take(i as int)).1,
        decreases ls@.len() - i,
    {
        proof {
            assert(lv.take(i + 1).drop_last() =~= lv.take(i as int));
            lemma_plan_tally_bound(lv.take(i as int));
        }
        let l = ls[i].as_slice();
        if crate::text::starts_with_str(l, "|") && !contains_str(l, "---") && !contains_str(l, "Module") {
            total = total + 1;
            let u = uppercase_chars(l);
            if contains_str(u.as_slice(), "| DONE") {
                done = done + 1;
            }
        }
        i = i + 1;
    }
    proof {
        assert(lv.take(i as int) =~= lv);
    }
    (total, done)
}

/// A drift log counts as resolved when it says so, in any case, and does
/// not say it is only partially resolved.
pub open spec fn resolved_log(content: Seq<char>) -> bool {
    contains(upper(content), "RESOLVED"@) && !contains(upper(content), "PARTIALLY RESOLVED"@)
}

/// Whether a drift log counts as resolved.
pub fn drift_resolved(content: &str) -> (b: bool)
    ensures
        b == resolved_log(content@),
{
    let u = uppercase_chars(chars_of(content).as_slice());
    contains_str(u.as_slice(), "RESOLVED") && !contains_str(u.as_slice(), "PARTIALLY RESOLVED")
}

/// The drift figures: logs found, resolved, and still open.
pub fn drift_summary(total: u32, resolved: u32) -> (r: Json)
    requires
        resolved <= total,
    ensures
        keys(r) == seq!["total_drift_logs"@, "resolved"@, "open"@],
        is_num(val(r, 0), total as int),
        is_num(val(r, 1), resolved as int),
        is_num(val(r, 2), total - resolved),
{
    let mut es: Vec<(String, Json)> = Vec::new();
    member(&mut es, "total_drift_logs", num_u64(total as u64));
    member(&mut es, "resolved", num_u64(resolved as u64));
    member(&mut es, "open", num_u64((total - resolved) as u64));
    let r = Json::Object(es);
    proof {
        assert(keys(r) =~= seq!["total_drift_logs"@, "resolved"@, "open"@]);
    }
    r
}

/// How old the agent cache is, from its age in seconds: minutes under an
/// hour, hours under a day, days beyond.
pub open spec fn age_text(secs: nat) -> Seq<char> {
    let hours = secs / 3600;
    if hours < 1 {
        dec(secs / 60) + " minutes ago"@
    } else if hours < 24 {
        dec(hours) + " hours ago"@
    } else {
        dec(hours / 24) + " days ago"@
    }
}

/// The description of a cache `age_secs` seconds old.
pub fn cache_age_description(age_secs: u64) -> (r: String)
    ensures
        r@ == age_text(age_secs as nat),
{
    let hours = age_secs / 3600;
    let mut t: Vec<char>;
    if hours < 1 {
        t = decimal(age_secs / 60);
        extend_str(&mut t, " minutes ago");
    } else if hours < 24 {
        t = decimal(hours);
        extend_str(&mut t, " hours ago");
    } else {
        t = decimal(hours / 24);
        extend_str(&mut t, " days ago");
    }
    string_of(t.as_slice())
}

/// The project's health: plan coverage, drift, cache age, the size of the
/// index and the latest evaluation.
pub fn project_health_report(
    plan_coverage: Json,
    drift: Json,
    cache_age: String,
    total_documents: i64,
    total_chunks: i64,
    corpora_count: usize,
    eval: Json,
) -> (r: Json)
    ensures
        keys(r) == seq![
            "plan_coverage"@,
            "open_drift_items"@,
            "cache_age_description"@,
            "rag_index"@,
            "eval"@,
        ],
        val(r, 0) == plan_coverage,
        val(r, 1) == drift,
        is_str(val(r, 2), cache_age@),
        keys(val(r, 3)) == seq!["total_documents"@, "total_chunks"@, "corpora_count"@],
        is_num(val(val(r, 3), 0), total_documents as int),
        is_num(val(val(r, 3), 1), total_chunks as int),
        is_num(val(val(r, 3), 2), corpora_count as int),
        val(r, 4) == eval,
{
    let mut idx: Vec<(String, Json)> = Vec::new();
    member(&mut idx, "total_documents", num_i64(total_documents));
    member(&mut idx, "total_chunks", num_i64(total_chunks));
    member(&mut idx, "corpora_count", num_u64(corpora_count as u64));
    let index = Json::Object(idx);
    proof {
        assert(keys(index) =~= seq!["total_documents"@, "total_chunks"@, "corpora_count"@]);
    }
    let mut es: Vec<(String, Json)> = Vec::new();
    member(&mut es, "plan_coverage", plan_coverage);
    member(&mut es, "open_drift_items", drift);
    member(&mut es, "cache_age_description", Json::Str(cache_age));
    member(&mut es, "rag_index", index);
    member(&mut es, "eval", eval);
    let r = Json::Object(es);
    proof {
        assert(keys(r) =~= seq![
            "plan_coverage"@,
            "open_drift_items"@,
            "cache_age_description"@,
            "rag_index"@,
            "eval"@,
        ]);
    }
    r
}

/// The corpora counted on disk: name, directories and file extensions.
pub open spec fn corpus_dirs() -> Seq<(Seq<char>, Seq<Seq<char>>, Seq<Seq<char>>)> {
    seq![
        ("rust"@, seq!["crates"@, "services/ui/src"@, "services/email/src"@], seq!["rs"@]),
        ("hcl"@, seq!["infra"@], seq!["tf"@]),
        ("plan"@, seq!["plans"@], seq!["md"@]),
        ("typescript"@, seq!["web/src"@], seq!["ts"@, "tsx"@]),
        ("openapi"@, seq!["crates/api-openapi"@], seq!["rs"@]),
        ("python"@, seq!["services/agent/src"@], seq!["py"@]),
    ]
}

/// A corpus counted on disk, with where and what to count.
#[derive(Debug)]
pub struct CorpusDirs {
    pub corpus: String,
    pub dirs: Vec<String>,
    pub extensions: Vec<String>,
}

/// The table of corpora counted on disk.
pub fn corpus_dir_table() -> (r: Vec<CorpusDirs>)
    ensures
        r@.len() == corpus_dirs().len(),
        forall|i: int|
            0 <= i < r@.len() ==> (#[trigger] r@[i]).corpus@ == corpus_dirs()[i].0 && strs(r@[i].dirs@)
                == corpus_dirs()[i].1 && strs(r@[i].extensions@) == corpus_dirs()[i].2,
{
    let mut r: Vec<CorpusDirs> = Vec::new();
    let rows: [(&str, &[&str], &[&str]); 6] = [
        ("rust", &["crates", "services/ui/src", "services/email/src"], &["rs"]),
        ("hcl", &["infra"], &["tf"]),
        ("plan", &["plans"], &["md"]),
        ("typescript", &["web/src"], &["ts", "tsx"]),
        ("openapi", &["crates/api-openapi"], &["rs"]),
        ("python", &["services/agent/src"], &["py"]),
    ];
    let ghost spec_rows = corpus_dirs();
    proof {
        assert(rows@[0].1@.map_values(|s: &str| s@) =~= spec_rows[0].1);
        assert(rows@[0].2@.map_values(|s: &str| s@) =~= spec_rows[0].2);
        assert(rows@[1].1@.map_values(|s: &str| s@) =~= spec_rows[1].1);
        assert(rows@[1].2@.map_values(|s: &str| s@) =~= spec_rows[1].2);
        assert(rows@[2].1@.map_values(|s: &str| s@) =~= spec_rows[2].1);
        assert(rows@[2].2@.map_values(|s: &str| s@) =~= spec_rows[2].2);
        assert(rows@[3].1@.map_values(|s: &str| s@) =~= spec_rows[3].1);
        assert(rows@[3].2@.map_values(|s: &str| s@) =~= spec_rows[3].2);
        assert(rows@[4].1@.map_values(|s: &str| s@) =~= spec_rows[4].1);
        assert(rows@[4].2@.map_values(|s: &str| s@) =~= spec_rows[4].2);
        assert(rows@[5].1@.map_values(|s: &str| s@) =~= spec_rows[5].1);
        assert(rows@[5].2@.map_values(|s: &str| s@) =~= spec_rows[5].2);
    }
    let mut i: usize = 0;
    while i < 6
        invariant
            i <= 6,
            spec_rows == corpus_dirs(),
            rows@[0].0@ == spec_rows[0].0 && rows@[1].0@ == spec_rows[1].0 && rows@[2].0@ == spec_rows[2].0
                && rows@[3].0@ == spec_rows[3].0 && rows@[4].0@ == spec_rows[4].0 && rows@[5].0@
                == spec_rows[5].0,
            forall|k: int|
                0 <= k < 6 ==> (#[trigger] rows@[k]).1@.map_values(|s: &str| s@) == spec_rows[k].1
                    && rows@[k].2@.map_values(|s: &str| s@) == spec_rows[k].2,
            r@.len() == i,
            forall|k: int|
                0 <= k < i ==> (#[trigger] r@[k]).corpus@ == spec_rows[k].0 && strs(r@[k].dirs@)
                    == spec_rows[k].1 && strs(r@[k].extensions@) == spec_rows[k].2,
        decreases 6 - i,
    {
        let (name, dirs, exts) = rows[i];
        let d = crate::text::owned_strings(dirs);
        let e = crate::text::owned_strings(exts);
        proof {
            assert(strs(d@) =~= dirs@.map_values(|s: &str| s@));
            assert(strs(e@) =~= exts@.map_values(|s: &str| s@));
            assert(rows@[i as int].0@ == spec_rows[i as int].0);
        }
        r.push(CorpusDirs { corpus: string_from(name), dirs: d, extensions: e });
        i = i + 1;
    }
    r
}

/// Whether the file count descends into a directory: not a hidden one, nor
/// `node_modules` or `target`.
pub fn descend_into(name: &str) -> (b: bool)
    ensures
        b == (!starts_with(name@, "."@) && name@ != "node_modules"@ && name@ != "target"@),
{
    let c = chars_of(name);
    !crate::text::starts_with_str(c.as_slice(), ".") && !crate::text::eq_str(name, "node_modules")
        && !crate::text::eq_str(name, "target")
}

/// The documents indexed for `corpus`: the count of the first row of
/// `indexed` with that kind, read as unsigned, or 0.
pub open spec fn indexed_count(indexed: Seq<(Seq<char>, i64)>, corpus: Seq<char>) -> u64
    decreases indexed.len(),
{
    if indexed.len() == 0 {
        0
    } else if indexed[0].0 == corpus {
        indexed[0].1 as u64
    } else {
        indexed_count(indexed.skip(1), corpus)
    }
}

/// The sum of a row of counts.
pub open spec fn total(v: Seq<u64>) -> nat
    decreases v.len(),
{
    if v.len() == 0 {
        0
    } else {
        total(v.drop_last()) + v.last() as nat
    }
}

/// The corpora (by index into `corpus_dirs`) with more files on disk than
/// documents indexed, among the first `n`.
pub open spec fn gap_rows(fs: Seq<Seq<u64>>, indexed: Seq<(Seq<char>, i64)>, n: int) -> Seq<int>
    decreases n,
{
    if n <= 0 {
        seq![]
    } else {
        let rest = gap_rows(fs, indexed, n - 1);
        if total(fs[n - 1]) > indexed_count(indexed, corpus_dirs()[n - 1].0) {
            rest.push(n - 1)
        } else {
            rest
        }
    }
}

/// `g` reports the gap of corpus `k` of `corpus_dirs`.
pub open spec fn gap_is(g: Json, k: int, fs: nat, idx: nat) -> bool {
    &&& keys(g) == seq!["corpus"@, "filesystem_files"@, "indexed_documents"@, "gap"@, "directories"@]
    &&& is_str(val(g, 0), corpus_dirs()[k].0)
    &&& is_num(val(g, 1), fs as int)
    &&& is_num(val(g, 2), idx as int)
    &&& is_num(val(g, 3), fs - idx)
    &&& val(g, 4) matches Json::Array(ds) && ds@.len() == corpus_dirs()[k].1.len() && forall|j: int|
        0 <= j < ds@.len() ==> is_str(#[trigger] ds@[j], corpus_dirs()[k].1[j])
}

/// The view of indexed rows.
pub open spec fn index_rows(v: Seq<(String, i64)>) -> Seq<(Seq<char>, i64)> {
    v.map_values(|p: (String, i64)| (p.0@, p.1))
}

fn indexed_count_of(indexed: &Vec<(String, i64)>, corpus: &str) -> (n: u64)
    ensures
        n == indexed_count(index_rows(indexed@), corpus@),
{
    let ghost rows = index_rows(indexed@);
    proof {
        assert(rows.skip(0) =~= rows);
    }
    let mut i: usize = 0;
    while i < indexed.len()
        invariant
            i <= indexed@.len(),
            rows == index_rows(indexed@),
            indexed_count(rows, corpus@) == indexed_count(rows.skip(i as int), corpus@),
        decreases indexed@.len() - i,
    {
        proof {
            assert(rows.skip(i as int)[0] == rows[i as int]);
            assert(rows.skip(i as int).skip(1) =~= rows.skip(i + 1));
        }
        if crate::text::eq_str(indexed[i].0.as_str(), corpus) {
            return #[verifier::truncate] (indexed[i].1 as u64);
        }
        i = i + 1;
    }
    0
}

fn sum_counts(v: &Vec<u64>) -> (n: u64)
    requires
        total(v@) <= u64::MAX,
    ensures
        n == total(v@),
{
    let mut n: u64 = 0;
    let mut i: usize = 0;
    while i < v.len()
        invariant
            i <= v@.len(),
            total(v@) <= u64::MAX,
            n == total(v@.take(i as int)),
        decreases v@.len() - i,
    {
        proof {
            assert(v@.take(i + 1).drop_last() =~= v@.take(i as int));
            lemma_total_prefix(v@, i + 1);
        }
        n = n + v[i];
        i = i + 1;
    }
    proof {
        assert(v@.take(i as int) =~= v@);
    }
    n
}

proof fn lemma_total_prefix(v: Seq<u64>, k: int)
    requires
        0 <= k <= v.len(),
    ensures
        total(v.take(k)) <= total(v),
    decreases v.len() - k,
{
    if k < v.len() {
        lemma_total_prefix(v, k + 1);
        assert(v.take(k + 1).drop_last() =~= v.take(k));
    } else {
        assert(v.take(k) =~= v);
    }
}

/// What the index is missing against the workspace: for each corpus of
/// `corpus_dirs` (file counts per directory in `fs_counts`, 0 for a missing
/// one) with more files on disk than documents indexed, the gap; and
/// the number of documents indexed per source kind.
pub fn corpus_gaps(indexed: &Vec<(String, i64)>, fs_counts: &Vec<Vec<u64>>) -> (r: Json)
    requires
        fs_counts@.len() == corpus_dirs().len(),
        forall|k: int| 0 <= k < fs_counts@.len() ==> total(#[trigger] fs_counts@[k]@) <= u64::MAX,
    ensures
        ({
            let fs = fs_counts@.map_values(|c: Vec<u64>| c@);
            let rows = gap_rows(fs, index_rows(indexed@), 6);
            &&& keys(r) == seq!["indexed_corpora"@, "gaps"@, "gap_count"@]
            &&& val(r, 0) matches Json::Array(s) && s@.len() == indexed@.len() && forall|i: int|
                0 <= i < s@.len() ==> keys(#[trigger] s@[i]) == seq!["corpus"@, "indexed_documents"@]
                    && is_str(val(s@[i], 0), indexed@[i].0@) && is_num(val(s@[i], 1), indexed@[i].1 as int)
            &&& val(r, 1) matches Json::Array(gs) && gs@.len() == rows.len() && forall|i: int|
                0 <= i < gs@.len() ==> gap_is(
                    #[trigger] gs@[i],
                    rows[i],
                    total(fs[rows[i]]),
                    indexed_count(index_rows(indexed@), corpus_dirs()[rows[i]].0) as nat,
                )
            &&& is_num(val(r, 2), rows.len() as int)
        }),
{
    let ghost fs = fs_counts@.map_values(|c: Vec<u64>| c@);
    let ghost irows = index_rows(indexed@);
    let table = corpus_dir_table();
    let mut gaps: Vec<Json> = Vec::new();
    let mut k: usize = 0;
    while k < 6
        invariant
            k <= 6,
            fs == fs_counts@.map_values(|c: Vec<u64>| c@),
            irows == index_rows(indexed@),
            fs_counts@.len() == 6,
            forall|j: int| 0 <= j < fs_counts@.len() ==> total(#[trigger] fs_counts@[j]@) <= u64::MAX,
            table@.len() == corpus_dirs().len(),
            forall|i: int|
                0 <= i < table@.len() ==> (#[trigger] table@[i]).corpus@ == corpus_dirs()[i].0 && strs(
                    table@[i].dirs@,
                ) == corpus_dirs()[i].1 && strs(table@[i].extensions@) == corpus_dirs()[i].2,
            gaps@.len() == gap_rows(fs, irows, k as int).len(),
            forall|i: int|
                0 <= i < gaps@.len() ==> gap_is(
                    #[trigger] gaps@[i],
                    gap_rows(fs, irows, k as int)[i],
                    total(fs[gap_rows(fs, irows, k as int)[i]]),
                    indexed_count(irows, corpus_dirs()[gap_rows(fs, irows, k as int)[i]].0) as nat,
                ),
        decreases 6 - k,
    {
        let row = &table[k];
        proof {
            assert(fs[k as int] == fs_counts@[k as int]@);
        }
        let on_disk = sum_counts(&fs_counts[k]);
        let in_index = indexed_count_of(indexed, row.corpus.as_str());
        let ghost before = gaps@;
        if on_disk > in_index {
            let mut ds: Vec<Json> = Vec::new();
            let mut j: usize = 0;
            while j < row.dirs.len()
                invariant
                    j <= row.dirs@.len(),
                    ds@.len() == j,
                    forall|m: int| 0 <= m < j ==> is_str(#[trigger] ds@[m], row.dirs@[m]@),
                decreases row.dirs@.len() - j,
            {
                ds.push(Json::Str(row.dirs[j].clone()));
                j = j + 1;
            }
            let mut es: Vec<(String, Json)> = Vec::new();
            member(&mut es, "corpus", Json::Str(row.corpus.clone()));
            member(&mut es, "filesystem_files", num_u64(on_disk));
            member(&mut es, "indexed_documents", num_u64(in_index));
            member(&mut es, "gap", num_u64(on_disk - in_index));
            member(&mut es, "directories", Json::Array(ds));
            let g = Json::Object(es);
            proof {
                assert(keys(g) =~= seq!["corpus"@, "filesystem_files"@, "indexed_documents"@, "gap"@, "directories"@]);
                assert forall|m: int| 0 <= m < corpus_dirs()[k as int].1.len() implies is_str(
                    #[trigger] ds@[m],
                    corpus_dirs()[k as int].1[m],
                ) by {
                    assert(strs(row.dirs@)[m] == row.dirs@[m]@);
                }
                assert(gap_is(g, k as int, on_disk as nat, in_index as nat));
            }
            gaps.push(g);
            proof {
                assert(gap_rows(fs, irows, k + 1) == gap_rows(fs, irows, k as int).push(k as int));
                assert forall|i: int| 0 <= i < gaps@.len() implies gap_is(
                    #[trigger] gaps@[i],
                    gap_rows(fs, irows, k + 1)[i],
                    total(fs[gap_rows(fs, irows, k + 1)[i]]),
                    indexed_count(irows, corpus_dirs()[gap_rows(fs, irows, k + 1)[i]].0) as nat,
                ) by {
                    if i < before.len() {
                        assert(gaps@[i] == before[i]);
                    }
                }
            }
        } else {
            proof {
                assert(gap_rows(fs, irows, k + 1) == gap_rows(fs, irows, k as int));
            }
        }
        k = k + 1;
    }
    let mut summary: Vec<Json> = Vec::new();
    let mut i: usize = 0;
    while i < indexed.len()
        invariant
            i <= indexed@.len(),
            summary@.len() == i,
            forall|m: int|
                0 <= m < i ==> keys(#[trigger] summary@[m]) == seq!["corpus"@, "indexed_documents"@]
                    && is_str(val(summary@[m], 0), indexed@[m].0@) && is_num(val(summary@[m], 1), indexed@[m].1 as int),
        decreases indexed@.len() - i,
    {
        let mut es: Vec<(String, Json)> = Vec::new();
        member(&mut es, "corpus", Json::Str(indexed[i].0.clone()));
        member(&mut es, "indexed_documents", num_i64(indexed[i].1));
        let e = Json::Object(es);
        proof {
            assert(keys(e) =~= seq!["corpus"@, "indexed_documents"@]);
        }
        summary.push(e);
        i = i + 1;
    }
    let n = gaps.len();
    let mut es: Vec<(String, Json)> = Vec::new();
    member(&mut es, "indexed_corpora", Json::Array(summary));
    member(&mut es, "gaps", Json::Array(gaps));
    member(&mut es, "gap_count", num_u64(n as u64));
    let r = Json::Object(es);
    proof {
        assert(keys(r) =~= seq!["indexed_corpora"@, "gaps"@, "gap_count"@]);
    }
    r
}

/// Law: the corpora a brief names are distinct, each is the corpus of one
/// of the results, and every result's corpus is among them.
pub proof fn law_brief_corpora(rs: Seq<Json>)
    ensures
        first_corpora(rs).no_duplicates(),
        forall|i: int| 0 <= i < rs.len() ==> first_corpora(rs).contains(corpus_of(#[trigger] rs[i])),
        forall|j: int|
            0 <= j < first_corpora(rs).len() ==> exists|i: int|
                0 <= i < rs.len() && corpus_of(#[trigger] rs[i]) == #[trigger] first_corpora(rs)[j],
    decreases rs.len(),
{
    if rs.len() > 0 {
        let d = rs.drop_last();
        law_brief_corpora(d);
        let c = corpus_of(rs.last());
        assert forall|i: int| 0 <= i < rs.len() implies first_corpora(rs).contains(corpus_of(#[trigger] rs[i])) by {
            if i < rs.len() - 1 {
                assert(rs[i] == d[i]);
                assert(first_corpora(d).contains(corpus_of(d[i])));
                let fd = first_corpora(d);
                let k = choose|k: int| 0 <= k < fd.len() && fd[k] == corpus_of(d[i]);
                assert(first_corpora(rs)[k] == fd[k]);
            } else {
                if !first_corpora(d).contains(c) {
                    assert(first_corpora(rs)[first_corpora(rs).len() - 1] == c);
                }
            }
        }
        assert forall|j: int| 0 <= j < first_corpora(rs).len() implies exists|i: int|
            0 <= i < rs.len() && corpus_of(#[trigger] rs[i]) == #[trigger] first_corpora(rs)[j] by {
            if j < first_corpora(d).len() {
                let i = choose|i: int| 0 <= i < d.len() && corpus_of(#[trigger] d[i]) == first_corpora(d)[j];
                assert(rs[i] == d[i]);
            } else {
                assert(corpus_of(rs[rs.len() - 1]) == first_corpora(rs)[j]);
            }
        }
    }
}

/// Law: every gap reported has more files on disk than documents indexed.
pub proof fn law_gaps_positive(fs: Seq<Seq<u64>>, indexed: Seq<(Seq<char>, i64)>, n: int)
    ensures
        forall|i: int|
            0 <= i < gap_rows(fs, indexed, n).len() ==> {
                let k = #[trigger] gap_rows(fs, indexed, n)[i];
                0 <= k < n && total(fs[k]) > indexed_count(indexed, corpus_dirs()[k].0)
            },
    decreases n,
{
    if n > 0 {
        law_gaps_positive(fs, indexed, n - 1);
        let rest = gap_rows(fs, indexed, n - 1);
        assert forall|i: int| 0 <= i < gap_rows(fs, indexed, n).len() implies {
            let k = #[trigger] gap_rows(fs, indexed, n)[i];
            0 <= k < n && total(fs[k]) > indexed_count(indexed, corpus_dirs()[k].0)
        } by {
            if i < rest.len() {
                assert(gap_rows(fs, indexed, n)[i] == rest[i]);
            }
        }
    }
}

} // verus!
