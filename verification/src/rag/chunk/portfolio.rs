//! Portfolio chunker: jobs, competencies, about sections and social links,
//! each written out as readable prose in one chunk (windows when long).
use vstd::prelude::*;
use crate::json::Json;
use crate::rag::chunk::window::{chunk_is, emit_entries, entries_view, entry_pieces, pairs};
use crate::rag::types::Chunk;
use crate::text::{chars_of, extend, extend_str, string_of};

verus! {

/// The string held, or `d`.
pub open spec fn or_str(o: Option<Seq<char>>, d: Seq<char>) -> Seq<char> {
    match o {
        Some(s) => s,
        None => d,
    }
}

/// `v[key].as_str().unwrap_or(d)`.
pub open spec fn field(v: Json, key: Seq<char>, d: Seq<char>) -> Seq<char> {
    or_str(v.str_field(key), d)
}

/// `Value::as_array`.
pub open spec fn as_array(v: Json) -> Option<Seq<Json>> {
    match v {
        Json::Array(a) => Some(a@),
        _ => None,
    }
}

/// `v.get(key).and_then(|x| x.as_array())`.
pub open spec fn array_field(v: Json, key: Seq<char>) -> Option<Seq<Json>> {
    match v.spec_get(key) {
        Some(x) => as_array(x),
        None => None,
    }
}

/// `"prefix" + s` when `s` is not empty, nothing otherwise.
pub open spec fn line_if(prefix: Seq<char>, s: Seq<char>) -> Seq<char> {
    if s.len() > 0 {
        prefix + s
    } else {
        seq![]
    }
}

/// The text of an accomplishment: `text`, else `detail_text`, else empty.
pub open spec fn detail_text(d: Json) -> Seq<char> {
    match d.str_field("text"@) {
        Some(t) => t,
        None => field(d, "detail_text"@, ""@),
    }
}

/// The accomplishment lines of `ds`, one `\n- ` line per non-empty text.
pub open spec fn detail_lines(ds: Seq<Json>) -> Seq<char>
    decreases ds.len(),
{
    if ds.len() == 0 {
        seq![]
    } else {
        detail_lines(ds.drop_last()) + line_if("\n- "@, detail_text(ds.last()))
    }
}

/// A job as prose.
pub open spec fn job_text(job: Json) -> Seq<char> {
    let head = "Job: "@ + field(job, "title"@, ""@) + " at "@ + field(job, "company"@, ""@) + " ("@
        + field(job, "start_date"@, "?"@) + "–"@ + field(job, "end_date"@, "present"@) + ")"@;
    let details = match array_field(job, "details"@) {
        Some(ds) => if ds.len() > 0 {
            "\nAccomplishments:"@ + detail_lines(ds)
        } else {
            seq![]
        },
        None => seq![],
    };
    head + line_if("\nTech: "@, field(job, "tech_stack"@, ""@)) + line_if(
        "\nSummary: "@,
        field(job, "summary"@, ""@),
    ) + details
}

/// The text of a piece of evidence: `text`, else `highlight_text`.
pub open spec fn highlight_text(e: Json) -> Seq<char> {
    match e.str_field("text"@) {
        Some(t) => t,
        None => field(e, "highlight_text"@, ""@),
    }
}

/// The evidence line of `e`, with its company when it names one.
pub open spec fn evidence_line(e: Json) -> Seq<char> {
    let h = highlight_text(e);
    let co = field(e, "company"@, ""@);
    if h.len() == 0 {
        seq![]
    } else if co.len() == 0 {
        "\n- "@ + h
    } else {
        "\n- "@ + h + " ("@ + co + ")"@
    }
}

/// The evidence lines of `es`.
pub open spec fn evidence_lines(es: Seq<Json>) -> Seq<char>
    decreases es.len(),
{
    if es.len() == 0 {
        seq![]
    } else {
        evidence_lines(es.drop_last()) + evidence_line(es.last())
    }
}

/// The evidence of a competency: `evidence` when present, else
/// `highlights`, as an array.
pub open spec fn evidence_of(comp: Json) -> Option<Seq<Json>> {
    match comp.spec_get("evidence"@) {
        Some(x) => as_array(x),
        None => array_field(comp, "highlights"@),
    }
}

/// A competency as prose.
pub open spec fn competency_text(comp: Json) -> Seq<char> {
    let ev = match evidence_of(comp) {
        Some(es) => if es.len() > 0 {
            "\nEvidence:"@ + evidence_lines(es)
        } else {
            seq![]
        },
        None => seq![],
    };
    "Competency: "@ + field(comp, "name"@, ""@) + line_if("\n"@, field(comp, "description"@, ""@)) + ev
}

/// An entity's prose and metadata members (before its path), by its kind:
/// a job has `company` and `title`, a competency `name` and `icon`, an
/// about section `heading` and `body`, a social link `platform` and `url`.
pub open spec fn prose(e: Json) -> Option<(Seq<char>, Seq<(Seq<char>, Seq<char>)>)> {
    let has = |k: Seq<char>| e.spec_get(k) is Some;
    if has("company"@) && has("title"@) {
        Some((job_text(e), seq![("entity_type"@, "job"@), ("slug"@, field(e, "slug"@, ""@))]))
    } else if has("name"@) && has("icon"@) {
        Some((competency_text(e), seq![("entity_type"@, "competency"@), ("slug"@, field(e, "slug"@, ""@))]))
    } else if has("heading"@) && has("body"@) {
        Some(
            (
                "About — "@ + field(e, "heading"@, ""@) + "\n"@ + field(e, "body"@, ""@),
                seq![("entity_type"@, "about"@), ("slug"@, field(e, "slug"@, ""@))],
            ),
        )
    } else if has("platform"@) && has("url"@) {
        Some(
            (
                "Social: "@ + field(e, "platform"@, ""@) + " — "@ + field(e, "url"@, ""@),
                seq![("entity_type"@, "social_link"@), ("platform"@, field(e, "platform"@, ""@))],
            ),
        )
    } else {
        None
    }
}

/// The texts to chunk for `es`, with their metadata members and `path`;
/// entities of no known kind are skipped.
pub open spec fn portfolio_entries(es: Seq<Json>, path: Seq<char>) -> Seq<(Seq<char>, Seq<(Seq<char>, Seq<char>)>)>
    decreases es.len(),
{
    if es.len() == 0 {
        seq![]
    } else {
        let rest = portfolio_entries(es.drop_last(), path);
        match prose(es.last()) {
            Some(p) => rest.push((p.0, p.1.push(("path"@, path)))),
            None => rest,
        }
    }
}

fn field_or(v: &Json, key: &str, d: &str) -> (r: Vec<char>)
    ensures
        r@ == field(*v, key@, d@),
{
    match v.get_str(key) {
        Some(s) => chars_of(s.as_str()),
        None => chars_of(d),
    }
}

fn push_line_if(t: &mut Vec<char>, prefix: &str, s: &[char])
    ensures
        final(t)@ == old(t)@ + line_if(prefix@, s@),
{
    if s.len() > 0 {
        extend_str(t, prefix);
        extend(t, s);
    } else {
        assert(old(t)@ + seq![] =~= old(t)@);
    }
}

fn array_of(v: Option<&Json>) -> (r: Option<&Vec<Json>>)
    ensures
        match v {
            Some(x) => match as_array(*x) {
                Some(a) => r matches Some(y) && y@ == a,
                None => r is None,
            },
            None => r is None,
        },
{
    match v {
        Some(Json::Array(a)) => Some(a),
        _ => None,
    }
}

fn job_prose(job: &Json) -> (t: Vec<char>)
    ensures
        t@ == job_text(*job),
{
    let mut t = chars_of("Job: ");
    extend(&mut t, field_or(job, "title", "").as_slice());
    extend_str(&mut t, " at ");
    extend(&mut t, field_or(job, "company", "").as_slice());
    extend_str(&mut t, " (");
    extend(&mut t, field_or(job, "start_date", "?").as_slice());
    extend_str(&mut t, "–");
    extend(&mut t, field_or(job, "end_date", "present").as_slice());
    extend_str(&mut t, ")");
    push_line_if(&mut t, "\nTech: ", field_or(job, "tech_stack", "").as_slice());
    push_line_if(&mut t, "\nSummary: ", field_or(job, "summary", "").as_slice());
    let ghost before = t@;
    if let Some(ds) = array_of(job.get("details")) {
        if ds.len() > 0 {
            extend_str(&mut t, "\nAccomplishments:");
            let ghost head = t@;
            let mut i: usize = 0;
            while i < ds.len()
                invariant
                    i <= ds@.len(),
                    t@ == head + detail_lines(ds@.take(i as int)),
                decreases ds@.len() - i,
            {
                proof {
                    assert(ds@.take(i + 1).drop_last() =~= ds@.take(i as int));
                }
                let d = &ds[i];
                let dt = match d.get_str("text") {
                    Some(x) => chars_of(x.as_str()),
                    None => field_or(d, "detail_text", ""),
                };
                push_line_if(&mut t, "\n- ", dt.as_slice());
                proof {
                    assert(t@ =~= head + detail_lines(ds@.take(i + 1)));
                }
                i = i + 1;
            }
            proof {
                assert(ds@.take(i as int) =~= ds@);
                assert(t@ =~= before + ("\nAccomplishments:"@ + detail_lines(ds@)));
            }
        } else {
            assert(t@ =~= before + seq![]);
        }
    } else {
        assert(t@ =~= before + seq![]);
    }
    t
}

fn competency_prose(comp: &Json) -> (t: Vec<char>)
    ensures
        t@ == competency_text(*comp),
{
    let mut t = chars_of("Competency: ");
    extend(&mut t, field_or(comp, "name", "").as_slice());
    push_line_if(&mut t, "\n", field_or(comp, "description", "").as_slice());
    let ghost before = t@;
    let ev = match comp.get("evidence") {
        Some(x) => array_of(Some(x)),
        None => array_of(comp.get("highlights")),
    };
    if let Some(es) = ev {
        if es.len() > 0 {
            extend_str(&mut t, "\nEvidence:");
            let ghost head = t@;
            let mut i: usize = 0;
            while i < es.len()
                invariant
                    i <= es@.len(),
                    t@ == head + evidence_lines(es@.take(i as int)),
                decreases es@.len() - i,
            {
                proof {
                    assert(es@.take(i + 1).drop_last() =~= es@.take(i as int));
                }
                let e = &es[i];
                let h = match e.get_str("text") {
                    Some(x) => chars_of(x.as_str()),
                    None => field_or(e, "highlight_text", ""),
                };
                let co = field_or(e, "company", "");
                let ghost t0 = t@;
                if h.len() > 0 {
                    extend_str(&mut t, "\n- ");
                    extend(&mut t, h.as_slice());
                    if co.len() > 0 {
                        extend_str(&mut t, " (");
                        extend(&mut t, co.as_slice());
                        extend_str(&mut t, ")");
                    }
                }
                proof {
                    assert(t@ =~= t0 + evidence_line(*e));
                    assert(t@ =~= head + evidence_lines(es@.take(i + 1)));
                }
                i = i + 1;
            }
            proof {
                assert(es@.take(i as int) =~= es@);
                assert(t@ =~= before + ("\nEvidence:"@ + evidence_lines(es@)));
            }
        } else {
            assert(t@ =~= before + seq![]);
        }
    } else {
        assert(t@ =~= before + seq![]);
    }
    t
}

fn member_pair(key: &str, value: &[char]) -> (r: (String, String))
    ensures
        r.0@ == key@,
        r.1@ == value@,
{
    (string_of(chars_of(key).as_slice()), string_of(value))
}

fn entity_prose(e: &Json) -> (r: Option<(Vec<char>, Vec<(String, String)>)>)
    ensures
        match prose(*e) {
            Some(p) => r matches Some(x) && x.0@ == p.0 && pairs(x.1@) == p.1,
            None => r is None,
        },
{
    let mut base: Vec<(String, String)> = Vec::new();
    if e.get("company").is_some() && e.get("title").is_some() {
        let text = job_prose(e);
        base.push(member_pair("entity_type", chars_of("job").as_slice()));
        base.push(member_pair("slug", field_or(e, "slug", "").as_slice()));
        proof {
            assert(pairs(base@) =~= prose(*e).unwrap().1);
        }
        return Some((text, base));
    }
    if e.get("name").is_some() && e.get("icon").is_some() {
        let text = competency_prose(e);
        base.push(member_pair("entity_type", chars_of("competency").as_slice()));
        base.push(member_pair("slug", field_or(e, "slug", "").as_slice()));
        proof {
            assert(pairs(base@) =~= prose(*e).unwrap().1);
        }
        return Some((text, base));
    }
    if e.get("heading").is_some() && e.get("body").is_some() {
        let mut text = chars_of("About — ");
        extend(&mut text, field_or(e, "heading", "").as_slice());
        extend_str(&mut text, "\n");
        extend(&mut text, field_or(e, "body", "").as_slice());
        base.push(member_pair("entity_type", chars_of("about").as_slice()));
        base.push(member_pair("slug", field_or(e, "slug", "").as_slice()));
        proof {
            assert(pairs(base@) =~= prose(*e).unwrap().1);
            assert(text@ =~= prose(*e).unwrap().0);
        }
        return Some((text, base));
    }
    if e.get("platform").is_some() && e.get("url").is_some() {
        let platform = field_or(e, "platform", "");
        let mut text = chars_of("Social: ");
        extend(&mut text, platform.as_slice());
        extend_str(&mut text, " — ");
        extend(&mut text, field_or(e, "url", "").as_slice());
        base.push(member_pair("entity_type", chars_of("social_link").as_slice()));
        base.push(member_pair("platform", platform.as_slice()));
        proof {
            assert(pairs(base@) =~= prose(*e).unwrap().1);
            assert(text@ =~= prose(*e).unwrap().0);
        }
        return Some((text, base));
    }
    None
}

/// One chunk per portfolio entity of a known kind (windows when long),
/// numbered from 0, each with its kind, slug or platform, and `path`.
/// The caller hands over the entities of the document's top-level array,
/// none when the document is not one.
pub fn chunk(path: &str, entities: &Vec<Json>) -> (r: Vec<Chunk>)
    requires
        entry_pieces(portfolio_entries(entities@, path@)).len() <= usize::MAX,
    ensures
        r@.len() == entry_pieces(portfolio_entries(entities@, path@)).len(),
        forall|j: int|
            0 <= j < r@.len() ==> {
                let p = #[trigger] entry_pieces(portfolio_entries(entities@, path@))[j];
                chunk_is(r@[j], j, p.0, p.1)
            },
{
    let mut texts: Vec<Vec<char>> = Vec::new();
    let mut bases: Vec<Vec<(String, String)>> = Vec::new();
    let mut i: usize = 0;
    while i < entities.len()
        invariant
            i <= entities@.len(),
            texts@.len() == bases@.len(),
            entries_view(texts@, bases@) == portfolio_entries(entities@.take(i as int), path@),
        decreases entities@.len() - i,
    {
        proof {
            assert(entities@.take(i + 1).drop_last() =~= entities@.take(i as int));
        }
        let ghost tb = texts@;
        let ghost bb = bases@;
        if let Some((text, mut base)) = entity_prose(&entities[i]) {
            let ghost b0 = base@;
            base.push(member_pair("path", chars_of(path).as_slice()));
            proof {
                assert(pairs(base@) =~= pairs(b0).push(("path"@, path@)));
            }
            texts.push(text);
            bases.push(base);
            proof {
                assert(entries_view(texts@, bases@) =~= entries_view(tb, bb).push((texts@.last()@, pairs(bases@.last()@))));
            }
        }
        i = i + 1;
    }
    proof {
        assert(entities@.take(i as int) =~= entities@);
    }
    emit_entries(&texts, &bases)
}

} // verus!
