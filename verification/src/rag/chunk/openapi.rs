//! OpenAPI chunker: one chunk per path operation (`GET /api/jobs`) and one
//! per component schema, written out as prose (windows when long).
use vstd::prelude::*;
use crate::json::{lemma_member_index, member_index, Json};
use crate::rag::chunk::portfolio::{array_field, field, line_if};
use crate::rag::chunk::window::{chunk_is, emit_entries, entries_view, entry_pieces, pairs};
use crate::rag::types::Chunk;
use crate::text::{chars_of, extend, extend_str, string_of, upper, uppercase_chars};

verus! {

/// The members of an object.
pub open spec fn as_object(v: Json) -> Option<Seq<(String, Json)>> {
    match v {
        Json::Object(es) => Some(es@),
        _ => None,
    }
}

/// `v.get(key).and_then(|x| x.as_object())`.
pub open spec fn object_field(v: Json, key: Seq<char>) -> Option<Seq<(String, Json)>> {
    match v.spec_get(key) {
        Some(x) => as_object(x),
        None => None,
    }
}

/// `v.get(key).and_then(|x| x.as_bool()).unwrap_or(false)`.
pub open spec fn flag(v: Json, key: Seq<char>) -> bool {
    match v.spec_get(key) {
        Some(Json::Bool(b)) => b,
        _ => false,
    }
}

/// The part of `r` after its last `/`, all of it when it has none.
pub open spec fn after_last_slash(r: Seq<char>) -> Seq<char>
    decreases r.len(),
{
    if r.len() == 0 {
        r
    } else if r.last() == '/' {
        seq![]
    } else {
        after_last_slash(r.drop_last()).push(r.last())
    }
}

/// The type of a schema as the chunks name it: its `type` (arrays with
/// their item type), else the last segment of its `$ref`, else `unknown`.
pub open spec fn schema_type_text(s: Json) -> Seq<char>
    decreases s,
{
    match s.str_field("type"@) {
        Some(t) => if t == "array"@ {
            match s {
                Json::Object(es) => match member_index(es@, "items"@) {
                    Some(i) => if 0 <= i < es@.len() {
                        "array<"@ + schema_type_text(es@[i].1) + ">"@
                    } else {
                        "array"@
                    },
                    None => "array"@,
                },
                _ => "array"@,
            }
        } else {
            t
        },
        None => match s.str_field("$ref"@) {
            Some(r) => after_last_slash(r),
            None => "unknown"@,
        },
    }
}

/// The line of a parameter: name, location and whether it is required.
pub open spec fn param_line(p: Json) -> Seq<char> {
    "\n  - "@ + field(p, "name"@, "?"@) + " ("@ + field(p, "in"@, "?"@) + (if flag(p, "required"@) {
        ", required"@
    } else {
        ""@
    }) + ")"@
}

/// The lines of the parameters `ps`.
pub open spec fn param_lines(ps: Seq<Json>) -> Seq<char>
    decreases ps.len(),
{
    if ps.len() == 0 {
        seq![]
    } else {
        param_lines(ps.drop_last()) + param_line(ps.last())
    }
}

/// The lines of the responses `rs`: status code and description.
pub open spec fn response_lines(rs: Seq<(String, Json)>) -> Seq<char>
    decreases rs.len(),
{
    if rs.len() == 0 {
        seq![]
    } else {
        response_lines(rs.drop_last()) + "\n  "@ + rs.last().0@ + ": "@ + field(rs.last().1, "description"@, ""@)
    }
}

/// The first tag of an operation, empty without one.
pub open spec fn first_tag(d: Json) -> Seq<char> {
    match array_field(d, "tags"@) {
        Some(ts) => if ts.len() > 0 {
            match ts[0] {
                Json::Str(t) => t@,
                _ => ""@,
            }
        } else {
            ""@
        },
        None => ""@,
    }
}

/// The prose of operation `d`, named `label` (method and path).
pub open spec fn operation_text(label: Seq<char>, d: Json) -> Seq<char> {
    let params = match array_field(d, "parameters"@) {
        Some(ps) => if ps.len() > 0 {
            "\nParameters:"@ + param_lines(ps)
        } else {
            seq![]
        },
        None => seq![],
    };
    let responses = match object_field(d, "responses"@) {
        Some(rs) => "\nResponses:"@ + response_lines(rs),
        None => seq![],
    };
    "Endpoint: "@ + label + line_if("\nSummary: "@, field(d, "summary"@, ""@)) + line_if(
        "\nDescription: "@,
        field(d, "description"@, ""@),
    ) + params + responses
}

/// The operations `ops` of `endpoint` as texts with their metadata.
pub open spec fn operation_entries(endpoint: Seq<char>, ops: Seq<(String, Json)>, path: Seq<char>) -> Seq<
    (Seq<char>, Seq<(Seq<char>, Seq<char>)>),
>
    decreases ops.len(),
{
    if ops.len() == 0 {
        seq![]
    } else {
        let (m, d) = ops.last();
        let label = upper(m@) + " "@ + endpoint;
        operation_entries(endpoint, ops.drop_last(), path).push(
            (operation_text(label, d), seq![("endpoint"@, label), ("tag"@, first_tag(d)), ("path"@, path)]),
        )
    }
}

/// The operations of every path of `paths`, skipping a path whose value
/// is not an object.
pub open spec fn path_entries(paths: Seq<(String, Json)>, path: Seq<char>) -> Seq<
    (Seq<char>, Seq<(Seq<char>, Seq<char>)>),
>
    decreases paths.len(),
{
    if paths.len() == 0 {
        seq![]
    } else {
        let rest = path_entries(paths.drop_last(), path);
        match as_object(paths.last().1) {
            Some(ops) => rest + operation_entries(paths.last().0@, ops, path),
            None => rest,
        }
    }
}

/// The line of a schema field: name, type and description.
pub open spec fn field_line(f: (String, Json)) -> Seq<char> {
    let desc = field(f.1, "description"@, ""@);
    "\n  "@ + f.0@ + ": "@ + schema_type_text(f.1) + line_if(" — "@, desc)
}

/// The lines of the fields `fs`.
pub open spec fn field_lines(fs: Seq<(String, Json)>) -> Seq<char>
    decreases fs.len(),
{
    if fs.len() == 0 {
        seq![]
    } else {
        field_lines(fs.drop_last()) + field_line(fs.last())
    }
}

/// The prose of schema `s` named `name`.
pub open spec fn schema_text(name: Seq<char>, s: Json) -> Seq<char> {
    "Schema: "@ + name + "\nType: "@ + field(s, "type"@, "object"@) + match object_field(s, "properties"@) {
        Some(fs) => "\nFields:"@ + field_lines(fs),
        None => seq![],
    }
}

/// The schemas `ss` as texts with their metadata.
pub open spec fn schema_entries(ss: Seq<(String, Json)>, path: Seq<char>) -> Seq<
    (Seq<char>, Seq<(Seq<char>, Seq<char>)>),
>
    decreases ss.len(),
{
    if ss.len() == 0 {
        seq![]
    } else {
        schema_entries(ss.drop_last(), path).push(
            (schema_text(ss.last().0@, ss.last().1), seq![("schema"@, ss.last().0@), ("path"@, path)]),
        )
    }
}

/// `spec.pointer("/components/schemas")` as an object.
pub open spec fn schemas_of(spec: Json) -> Option<Seq<(String, Json)>> {
    match spec.spec_get("components"@) {
        Some(c) => object_field(c, "schemas"@),
        None => None,
    }
}

/// All texts of a specification: its operations, then its schemas.
pub open spec fn openapi_entries(spec: Json, path: Seq<char>) -> Seq<(Seq<char>, Seq<(Seq<char>, Seq<char>)>)> {
    (match object_field(spec, "paths"@) {
        Some(ps) => path_entries(ps, path),
        None => seq![],
    }) + match schemas_of(spec) {
        Some(ss) => schema_entries(ss, path),
        None => seq![],
    }
}

fn field_or(v: &Json, key: &str, d: &str) -> (r: Vec<char>)
    ensures
        r@ == field(*v, key@, d@),
{
    match v.get_str(key) {
        Some(s) => chars_of(s.as_str()),
        None => chars_of(d),
    }
}

fn push_line_if(t: &mut Vec<char>, prefix: &str, s: &[char])
    ensures
        final(t)@ == old(t)@ + line_if(prefix@, s@),
{
    if s.len() > 0 {
        extend_str(t, prefix);
        extend(t, s);
    } else {
        assert(old(t)@ + seq![] =~= old(t)@);
    }
}

fn object_of(v: Option<&Json>) -> (r: Option<&Vec<(String, Json)>>)
    ensures
        match v {
            Some(x) => match as_object(*x) {
                Some(a) => r matches Some(y) && y@ == a,
                None => r is None,
            },
            None => r is None,
        },
{
    match v {
        Some(Json::Object(a)) => Some(a),
        _ => None,
    }
}

fn array_of(v: Option<&Json>) -> (r: Option<&Vec<Json>>)
    ensures
        match v {
            Some(x) => match crate::rag::chunk::portfolio::as_array(*x) {
                Some(a) => r matches Some(y) && y@ == a,
                None => r is None,
            },
            None => r is None,
        },
{
    match v {
        Some(Json::Array(a)) => Some(a),
        _ => None,
    }
}

fn last_segment(r: &[char]) -> (s: Vec<char>)
    ensures
        s@ == after_last_slash(r@),
{
    let mut out: Vec<char> = Vec::new();
    let mut i: usize = 0;
    while i < r.len()
        invariant
            i <= r@.len(),
            out@ == after_last_slash(r@.take(i as int)),
        decreases r@.len() - i,
    {
        proof {
            assert(r@.take(i + 1).drop_last() =~= r@.take(i as int));
        }
        if r[i] == '/' {
            out = Vec::new();
            proof {
                assert(out@ =~= after_last_slash(r@.take(i + 1)));
            }
        } else {
            out.push(r[i]);
        }
        i = i + 1;
    }
    proof {
        assert(r@.take(i as int) =~= r@);
    }
    out
}

/// The type of a schema, as the chunks name it.
pub fn schema_type_str(s: &Json) -> (r: Vec<char>)
    ensures
        r@ == schema_type_text(*s),
    decreases s,
{
    match s.get_str("type") {
        Some(t) => {
            if crate::text::eq_str(t.as_str(), "array") {
                match s {
                    Json::Object(es) => match s.get("items") {
                        Some(items) => {
                            proof {
                                lemma_member_index(es@, "items"@);
                                let i = member_index(es@, "items"@).unwrap();
                                assert(*items == es@[i].1);
                                assert(decreases_to!(*s => s->Object_0));
                                assert(decreases_to!(s->Object_0 => es@));
                                assert(decreases_to!(es@ => es@[i]));
                                assert(decreases_to!(es@[i] => es@[i].1));
                            }
                            let inner = schema_type_str(items);
                            let mut out = chars_of("array<");
                            extend(&mut out, inner.as_slice());
                            extend_str(&mut out, ">");
                            proof {
                                lemma_member_index(es@, "items"@);
                            }
                            out
                        },
                        None => chars_of("array"),
                    },
                    _ => chars_of("array"),
                }
            } else {
                chars_of(t.as_str())
            }
        },
        None => match s.get_str("$ref") {
            Some(r) => last_segment(chars_of(r.as_str()).as_slice()),
            None => chars_of("unknown"),
        },
    }
}

fn operation_prose(label: &[char], d: &Json) -> (t: Vec<char>)
    ensures
        t@ == operation_text(label@, *d),
{
    let mut t = chars_of("Endpoint: ");
    extend(&mut t, label);
    push_line_if(&mut t, "\nSummary: ", field_or(d, "summary", "").as_slice());
    push_line_if(&mut t, "\nDescription: ", field_or(d, "description", "").as_slice());
    let ghost before = t@;
    match array_of(d.get("parameters")) {
        Some(ps) => if ps.len() > 0 {
            extend_str(&mut t, "\nParameters:");
            let ghost head = t@;
            let mut i: usize = 0;
            while i < ps.len()
                invariant
                    i <= ps@.len(),
                    t@ == head + param_lines(ps@.take(i as int)),
                decreases ps@.len() - i,
            {
                proof {
                    assert(ps@.take(i + 1).drop_last() =~= ps@.take(i as int));
                }
                let p = &ps[i];
                let ghost t0 = t@;
                extend_str(&mut t, "\n  - ");
                extend(&mut t, field_or(p, "name", "?").as_slice());
                extend_str(&mut t, " (");
                extend(&mut t, field_or(p, "in", "?").as_slice());
                let required = match p.get("required") {
                    Some(Json::Bool(b)) => *b,
                    _ => false,
                };
                if required {
                    extend_str(&mut t, ", required");
                } else {
                    extend_str(&mut t, "");
                }
                extend_str(&mut t, ")");
                proof {
                    assert(t@ =~= t0 + param_line(*p));
                    assert(t@ =~= head + param_lines(ps@.take(i + 1)));
                }
                i = i + 1;
            }
            proof {
                assert(ps@.take(i as int) =~= ps@);
            }
        },
        None => {},
    }
    let ghost mid = t@;
    proof {
        assert(mid == before + match array_field(*d, "parameters"@) {
            Some(ps) => if ps.len() > 0 {
                "\nParameters:"@ + param_lines(ps)
            } else {
                seq![]
            },
            None => seq![],
        });
    }
    match object_of(d.get("responses")) {
        Some(rs) => {
            extend_str(&mut t, "\nResponses:");
            let ghost head = t@;
            let mut i: usize = 0;
            while i < rs.len()
                invariant
                    i <= rs@.len(),
                    t@ == head + response_lines(rs@.take(i as int)),
                decreases rs@.len() - i,
            {
                proof {
                    assert(rs@.take(i + 1).drop_last() =~= rs@.take(i as int));
                }
                let ghost t0 = t@;
                extend_str(&mut t, "\n  ");
                extend_str(&mut t, rs[i].0.as_str());
                extend_str(&mut t, ": ");
                extend(&mut t, field_or(&rs[i].1, "description", "").as_slice());
                proof {
                    assert(t@ =~= head + response_lines(rs@.take(i + 1)));
                }
                i = i + 1;
            }
            proof {
                assert(rs@.take(i as int) =~= rs@);
            }
        },
        None => {},
    }
    proof {
        assert(t@ =~= operation_text(label@, *d));
    }
    t
}

fn tag_of(d: &Json) -> (t: Vec<char>)
    ensures
        t@ == first_tag(*d),
{
    match array_of(d.get("tags")) {
        Some(ts) => if ts.len() > 0 {
            match &ts[0] {
                Json::Str(t) => chars_of(t.as_str()),
                _ => chars_of(""),
            }
        } else {
            chars_of("")
        },
        None => chars_of(""),
    }
}

fn pair(key: &str, value: &[char]) -> (r: (String, String))
    ensures
        r.0@ == key@,
        r.1@ == value@,
{
    (string_of(chars_of(key).as_slice()), string_of(value))
}

fn schema_prose(name: &str, s: &Json) -> (t: Vec<char>)
    ensures
        t@ == schema_text(name@, *s),
{
    let mut t = chars_of("Schema: ");
    extend_str(&mut t, name);
    extend_str(&mut t, "\nType: ");
    extend(&mut t, field_or(s, "type", "object").as_slice());
    let ghost before = t@;
    match object_of(s.get("properties")) {
        Some(fs) => {
            extend_str(&mut t, "\nFields:");
            let ghost head = t@;
            let mut i: usize = 0;
            while i < fs.len()
                invariant
                    i <= fs@.len(),
                    t@ == head + field_lines(fs@.take(i as int)),
                decreases fs@.len() - i,
            {
                proof {
                    assert(fs@.take(i + 1).drop_last() =~= fs@.take(i as int));
                }
                let ghost t0 = t@;
                extend_str(&mut t, "\n  ");
                extend_str(&mut t, fs[i].0.as_str());
                extend_str(&mut t, ": ");
                extend(&mut t, schema_type_str(&fs[i].1).as_slice());
                push_line_if(&mut t, " — ", field_or(&fs[i].1, "description", "").as_slice());
                proof {
                    assert(t@ =~= t0 + field_line(fs@[i as int]));
                    assert(t@ =~= head + field_lines(fs@.take(i + 1)));
                }
                i = i + 1;
            }
            proof {
                assert(fs@.take(i as int) =~= fs@);
            }
        },
        None => {},
    }
    proof {
        assert(t@ =~= schema_text(name@, *s));
    }
    t
}

/// One chunk per operation of each path and per component schema of an
/// OpenAPI specification (windows when long), numbered from 0. Operation
/// chunks carry `endpoint`, `tag` and `path`; schema chunks `schema` and
/// `path`. The caller hands over the parsed document, `Null` when it is
/// not JSON.
pub fn chunk(path: &str, spec: &Json) -> (r: Vec<Chunk>)
    requires
        entry_pieces(openapi_entries(*spec, path@)).len() <= usize::MAX,
    ensures
        r@.len() == entry_pieces(openapi_entries(*spec, path@)).len(),
        forall|j: int|
            0 <= j < r@.len() ==> {
                let p = #[trigger] entry_pieces(openapi_entries(*spec, path@))[j];
                chunk_is(r@[j], j, p.0, p.1)
            },
{
    let mut texts: Vec<Vec<char>> = Vec::new();
    let mut bases: Vec<Vec<(String, String)>> = Vec::new();
    let pc = chars_of(path);
    match object_of(spec.get("paths")) {
        Some(paths) => {
            let mut i: usize = 0;
            while i < paths.len()
                invariant
                    i <= paths@.len(),
                    pc@ == path@,
                    texts@.len() == bases@.len(),
                    entries_view(texts@, bases@) == path_entries(paths@.take(i as int), path@),
                decreases paths@.len() - i,
            {
                proof {
                    assert(paths@.take(i + 1).drop_last() =~= paths@.take(i as int));
                }
                let endpoint = &paths[i].0;
                let ghost e0 = entries_view(texts@, bases@);
                match object_of(Some(&paths[i].1)) {
                    Some(ops) => {
                        let mut k: usize = 0;
                        while k < ops.len()
                            invariant
                                k <= ops@.len(),
                                pc@ == path@,
                                texts@.len() == bases@.len(),
                                entries_view(texts@, bases@) == e0 + operation_entries(
                                    endpoint@,
                                    ops@.take(k as int),
                                    path@,
                                ),
                            decreases ops@.len() - k,
                        {
                            proof {
                                assert(ops@.take(k + 1).drop_last() =~= ops@.take(k as int));
                            }
                            let (m, d) = (&ops[k].0, &ops[k].1);
                            let mut label = uppercase_chars(chars_of(m.as_str()).as_slice());
                            extend_str(&mut label, " ");
                            extend_str(&mut label, endpoint.as_str());
                            let text = operation_prose(label.as_slice(), d);
                            let mut base: Vec<(String, String)> = Vec::new();
                            base.push(pair("endpoint", label.as_slice()));
                            base.push(pair("tag", tag_of(d).as_slice()));
                            base.push(pair("path", pc.as_slice()));
                            let ghost tb = texts@;
                            let ghost bb = bases@;
                            texts.push(text);
                            bases.push(base);
                            proof {
                                assert(entries_view(texts@, bases@) =~= entries_view(tb, bb).push(
                                    (texts@.last()@, pairs(bases@.last()@)),
                                ));
                                assert(pairs(bases@.last()@) =~= seq![
                                    ("endpoint"@, label@),
                                    ("tag"@, first_tag(*d)),
                                    ("path"@, path@),
                                ]);
                                assert(ops@.take(k + 1).last() == ops@[k as int]);
                            }
                            k = k + 1;
                        }
                        proof {
                            assert(ops@.take(k as int) =~= ops@);
                        }
                    },
                    None => {},
                }
                i = i + 1;
            }
            proof {
                assert(paths@.take(i as int) =~= paths@);
            }
        },
        None => {},
    }
    let ghost first = entries_view(texts@, bases@);
    let schemas = match spec.get("components") {
        Some(c) => object_of(c.get("schemas")),
        None => None,
    };
    match schemas {
        Some(ss) => {
            let mut i: usize = 0;
            while i < ss.len()
                invariant
                    i <= ss@.len(),
                    pc@ == path@,
                    texts@.len() == bases@.len(),
                    entries_view(texts@, bases@) == first + schema_entries(ss@.take(i as int), path@),
                decreases ss@.len() - i,
            {
                proof {
                    assert(ss@.take(i + 1).drop_last() =~= ss@.take(i as int));
                }
                let name = &ss[i].0;
                let text = schema_prose(name.as_str(), &ss[i].1);
                let mut base: Vec<(String, String)> = Vec::new();
                base.push(pair("schema", chars_of(name.as_str()).as_slice()));
                base.push(pair("path", pc.as_slice()));
                let ghost tb = texts@;
                let ghost bb = bases@;
                texts.push(text);
                bases.push(base);
                proof {
                    assert(entries_view(texts@, bases@) =~= entries_view(tb, bb).push(
                        (texts@.last()@, pairs(bases@.last()@)),
                    ));
                    assert(pairs(bases@.last()@) =~= seq![("schema"@, name@), ("path"@, path@)]);
                }
                i = i + 1;
            }
            proof {
                assert(ss@.take(i as int) =~= ss@);
            }
        },
        None => {},
    }
    proof {
        assert(entries_view(texts@, bases@) =~= openapi_entries(*spec, path@));
    }
    emit_entries(&texts, &bases)
}

} // verus!
