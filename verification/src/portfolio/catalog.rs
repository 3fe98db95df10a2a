//! The portfolio server's tools, with their input schemas, and the corpora
//! it searches.
use vstd::prelude::*;
use crate::json::Json;
use crate::portfolio::rpc::is_str;
use crate::text::{owned_strings, string_from, strs};

verus! {

/// How many results a query returns when the caller names no number.
pub const DEFAULT_TOP_K: usize = 5;

/// How many characters of each result a query keeps when the caller names
/// no limit.
pub const DEFAULT_MAX_CONTENT_LEN: usize = 500;

pub const CONTEXT_BRIEF_DESC: &'static str = "Get a compact context summary (~500 tokens) for a task. Returns relevant corpus names, top document paths, and one-line summaries. Use this FIRST to decide what to drill into, then query_rag for full content.";

pub const QUERY_RAG_DESC: &'static str = "Query the portfolio RAG system. Supports corpus filtering, result count, and content truncation for token efficiency. Use context_brief first for orientation, then this tool for detail.";

pub const LIST_CORPORA_DESC: &'static str = "List all available RAG corpora with names";

pub const CORPUS_STATS_DESC: &'static str = "Get real statistics for a corpus: document count, chunk count, avg token size, date range";

pub const PROJECT_HEALTH_DESC: &'static str = "Get project health metrics: plan coverage %, open drift items, cache age, RAG index stats. Use for AI-DLC health dashboards.";

pub const TASK_DESC: &'static str = "Description of the task or question you need context for";

pub const QUERY_DESC: &'static str = "The search query";

pub const CORPUS_FILTER_DESC: &'static str = "Optional source_kind filter (openapi, portfolio, rust, hcl, plan, cache, challenge)";

pub const TOP_K_DESC: &'static str = "Maximum number of results (default: 5). Use 3 for quick lookups.";

pub const MAX_CONTENT_DESC: &'static str = "Max chars per result content (default: 500). Set 0 for full content. Truncated results have truncated=true.";

pub const CORPUS_NAME_DESC: &'static str = "The corpus name (openapi, portfolio, rust, hcl, plan, cache, challenge)";

/// A tool as the catalogue lists it.
#[derive(Debug)]
pub struct Tool {
    pub name: String,
    pub description: Option<String>,
    pub input_schema: Json,
}

/// A property of an input schema: name, type, description and, for a
/// number, its default as JSON text.
pub type PropSpec = (Seq<char>, Seq<char>, Seq<char>, Option<Seq<char>>);

/// `d` is the schema of one property: `{"type", "description"}` and, when
/// the property has one, `"default"`.
pub open spec fn prop_doc(d: Json, p: PropSpec) -> bool {
    d matches Json::Object(m) && m@.len() == (if p.3 is Some {
        3int
    } else {
        2int
    }) && m@[0].0@ == "type"@ && is_str(m@[0].1, p.1) && m@[1].0@ == "description"@ && is_str(m@[1].1, p.2)
        && match p.3 {
        Some(dv) => m@[2].0@ == "default"@ && (m@[2].1 matches Json::Number(n) && n@ == dv),
        None => true,
    }
}

/// `s` is `{"type": "object", "properties": {..}, "required": [..]}` with
/// the properties `props` in order and the required names `required`.
pub open spec fn schema_is(s: Json, props: Seq<PropSpec>, required: Seq<Seq<char>>) -> bool {
    s matches Json::Object(es) && es@.len() == 3 && es@[0].0@ == "type"@ && is_str(es@[0].1, "object"@)
        && es@[1].0@ == "properties"@ && (es@[1].1 matches Json::Object(ps) && ps@.len() == props.len()
        && forall|i: int|
        0 <= i < props.len() ==> (#[trigger] ps@[i]).0@ == props[i].0 && prop_doc(ps@[i].1, props[i]))
        && es@[2].0@ == "required"@ && (es@[2].1 matches Json::Array(rs) && rs@.len() == required.len()
        && forall|i: int| 0 <= i < required.len() ==> is_str(#[trigger] rs@[i], required[i]))
}

/// The catalogue: name, description, properties and required names of
/// each tool, in the order listed.
pub open spec fn tool_specs() -> Seq<(Seq<char>, Seq<char>, Seq<PropSpec>, Seq<Seq<char>>)> {
    seq![
        (
            "context_brief"@,
            CONTEXT_BRIEF_DESC@,
            seq![("task"@, "string"@, TASK_DESC@, None)],
            seq!["task"@],
        ),
        (
            "query_rag"@,
            QUERY_RAG_DESC@,
            seq![
                ("query"@, "string"@, QUERY_DESC@, None),
                ("corpus"@, "string"@, CORPUS_FILTER_DESC@, None),
                ("top_k"@, "integer"@, TOP_K_DESC@, Some("5"@)),
                ("max_content_length"@, "integer"@, MAX_CONTENT_DESC@, Some("500"@)),
            ],
            seq!["query"@],
        ),
        ("list_corpora"@, LIST_CORPORA_DESC@, seq![], seq![]),
        (
            "get_corpus_stats"@,
            CORPUS_STATS_DESC@,
            seq![("corpus"@, "string"@, CORPUS_NAME_DESC@, None)],
            seq!["corpus"@],
        ),
        ("project_health"@, PROJECT_HEALTH_DESC@, seq![], seq![]),
    ]
}

/// The characters of a property given as string slices.
pub open spec fn prop_view(p: (&str, &str, &str, Option<&str>)) -> PropSpec {
    (
        p.0@,
        p.1@,
        p.2@,
        match p.3 {
            Some(d) => Some(d@),
            None => None,
        },
    )
}

fn prop_schema(ty: &str, desc: &str, default: Option<&str>) -> (r: Json)
    ensures
        prop_doc(r, (seq![], ty@, desc@, match default {
            Some(d) => Some(d@),
            None => None,
        })),
{
    let mut m: Vec<(String, Json)> = Vec::new();
    m.push((string_from("type"), Json::Str(string_from(ty))));
    m.push((string_from("description"), Json::Str(string_from(desc))));
    match default {
        Some(d) => {
            m.push((string_from("default"), Json::Number(string_from(d))));
        },
        None => {},
    }
    Json::Object(m)
}

/// The input schema with properties `props` and required names `required`.
fn schema(props: &[(&str, &str, &str, Option<&str>)], required: &[&str]) -> (r: Json)
    ensures
        schema_is(r, props@.map_values(|p: (&str, &str, &str, Option<&str>)| prop_view(p)), strs_of(required@)),
{
    let ghost pv = props@.map_values(|p: (&str, &str, &str, Option<&str>)| prop_view(p));
    let mut ps: Vec<(String, Json)> = Vec::new();
    let mut i: usize = 0;
    while i < props.len()
        invariant
            i <= props@.len(),
            pv == props@.map_values(|p: (&str, &str, &str, Option<&str>)| prop_view(p)),
            ps@.len() == i,
            forall|k: int| 0 <= k < i ==> (#[trigger] ps@[k]).0@ == pv[k].0 && prop_doc(ps@[k].1, pv[k]),
        decreases props@.len() - i,
    {
        let (name, ty, desc, default) = props[i];
        let d = prop_schema(ty, desc, default);
        ps.push((string_from(name), d));
        i = i + 1;
    }
    let mut rs: Vec<Json> = Vec::new();
    let mut j: usize = 0;
    while j < required.len()
        invariant
            j <= required@.len(),
            rs@.len() == j,
            forall|k: int| 0 <= k < j ==> is_str(#[trigger] rs@[k], required@[k]@),
        decreases required@.len() - j,
    {
        rs.push(Json::Str(string_from(required[j])));
        j = j + 1;
    }
    let mut es: Vec<(String, Json)> = Vec::new();
    es.push((string_from("type"), Json::Str(string_from("object"))));
    es.push((string_from("properties"), Json::Object(ps)));
    es.push((string_from("required"), Json::Array(rs)));
    Json::Object(es)
}

/// The characters of each string slice.
pub open spec fn strs_of(v: Seq<&str>) -> Seq<Seq<char>> {
    v.map_values(|s: &str| s@)
}

/// `t` is the catalogue entry `spec`.
pub open spec fn tool_is(t: Tool, spec: (Seq<char>, Seq<char>, Seq<PropSpec>, Seq<Seq<char>>)) -> bool {
    &&& t.name@ == spec.0
    &&& t.description matches Some(d) && d@ == spec.1
    &&& schema_is(t.input_schema, spec.2, spec.3)
}

fn tool(name: &str, desc: &str, props: &[(&str, &str, &str, Option<&str>)], required: &[&str]) -> (t: Tool)
    ensures
        tool_is(
            t,
            (
                name@,
                desc@,
                props@.map_values(|p: (&str, &str, &str, Option<&str>)| prop_view(p)),
                strs_of(required@),
            ),
        ),
{
    Tool { name: string_from(name), description: Some(string_from(desc)), input_schema: schema(props, required) }
}

/// The tools the server offers, in order.
pub fn list_tools() -> (r: Vec<Tool>)
    ensures
        r@.len() == tool_specs().len(),
        forall|i: int| 0 <= i < r@.len() ==> tool_is(#[trigger] r@[i], tool_specs()[i]),
{
    let mut r: Vec<Tool> = Vec::new();
    let brief_props: [(&str, &str, &str, Option<&str>); 1] = [("task", "string", TASK_DESC, None)];
    let brief_req: [&str; 1] = ["task"];
    proof {
        assert(brief_props@.map_values(|p: (&str, &str, &str, Option<&str>)| prop_view(p)) =~= tool_specs()[0].2);
        assert(strs_of(brief_req@) =~= tool_specs()[0].3);
    }
    r.push(tool("context_brief", CONTEXT_BRIEF_DESC, &brief_props, &brief_req));
    let query_props: [(&str, &str, &str, Option<&str>); 4] = [
        ("query", "string", QUERY_DESC, None),
        ("corpus", "string", CORPUS_FILTER_DESC, None),
        ("top_k", "integer", TOP_K_DESC, Some("5")),
        ("max_content_length", "integer", MAX_CONTENT_DESC, Some("500")),
    ];
    let query_req: [&str; 1] = ["query"];
    proof {
        assert(query_props@.map_values(|p: (&str, &str, &str, Option<&str>)| prop_view(p)) =~= tool_specs()[1].2);
        assert(strs_of(query_req@) =~= tool_specs()[1].3);
    }
    r.push(tool("query_rag", QUERY_RAG_DESC, &query_props, &query_req));
    let none_props: [(&str, &str, &str, Option<&str>); 0] = [];
    let none_req: [&str; 0] = [];
    proof {
        assert(none_props@.map_values(|p: (&str, &str, &str, Option<&str>)| prop_view(p)) =~= tool_specs()[2].2);
        assert(strs_of(none_req@) =~= tool_specs()[2].3);
    }
    r.push(tool("list_corpora", LIST_CORPORA_DESC, &none_props, &none_req));
    let stats_props: [(&str, &str, &str, Option<&str>); 1] = [("corpus", "string", CORPUS_NAME_DESC, None)];
    let stats_req: [&str; 1] = ["corpus"];
    proof {
        assert(stats_props@.map_values(|p: (&str, &str, &str, Option<&str>)| prop_view(p)) =~= tool_specs()[3].2);
        assert(strs_of(stats_req@) =~= tool_specs()[3].3);
    }
    r.push(tool("get_corpus_stats", CORPUS_STATS_DESC, &stats_props, &stats_req));
    r.push(tool("project_health", PROJECT_HEALTH_DESC, &none_props, &none_req));
    r
}

/// The corpora the server searches, by source kind.
pub open spec fn corpora() -> Seq<Seq<char>> {
    seq![
        "openapi"@,
        "portfolio"@,
        "rust"@,
        "hcl"@,
        "plan"@,
        "cache"@,
        "challenge"@,
        "typescript"@,
        "python"@,
    ]
}

/// The corpora the server searches.
pub fn default_corpora() -> (r: Vec<String>)
    ensures
        strs(r@) == corpora(),
{
    let r = owned_strings(
        &["openapi", "portfolio", "rust", "hcl", "plan", "cache", "challenge", "typescript", "python"],
    );
    proof {
        assert(strs(r@) =~= corpora());
    }
    r
}

} // verus!
