//! The Cargo workspace inspection tool.
use vstd::prelude::*;
use crate::json::Json;
use crate::portfolio::report::{is_num, keys, num_u64, val};
use crate::portfolio::rpc::is_str;
use crate::text::{chars_of, eq_str, extend_str, string_from, string_of};

verus! {

/// The `workspace_info` tool.
pub struct WorkspaceInfo;

impl WorkspaceInfo {
    /// The tool's name.
    pub fn name() -> (r: &'static str)
        ensures
            r@ == "workspace_info"@,
    {
        "workspace_info"
    }

    /// The tool's description.
    pub fn description() -> (r: &'static str)
        ensures
            r@ == "Inspect Cargo workspace: members, dependencies, features"@,
    {
        "Inspect Cargo workspace: members, dependencies, features"
    }
}


/// `v[key]`: the member of an object, `null` when there is none.
pub open spec fn member_or_null(v: Json, key: Seq<char>) -> Json {
    match v.spec_get(key) {
        Some(m) => m,
        None => Json::Null,
    }
}

/// The items of an array; none for anything else.
pub open spec fn items_of(v: Json) -> Seq<Json> {
    match v {
        Json::Array(a) => a@,
        _ => seq![],
    }
}

/// The strings among `items`, in order.
pub open spec fn strings_in(items: Seq<Json>) -> Seq<Seq<char>>
    decreases items.len(),
{
    if items.len() == 0 {
        seq![]
    } else {
        let r = strings_in(items.drop_last());
        match items.last().spec_as_str() {
            Some(s) => r.push(s),
            None => r,
        }
    }
}

/// The string `name` members among `items`, in order.
pub open spec fn names_in(items: Seq<Json>) -> Seq<Seq<char>>
    decreases items.len(),
{
    if items.len() == 0 {
        seq![]
    } else {
        let r = names_in(items.drop_last());
        match items.last().str_field("name"@) {
            Some(s) => r.push(s),
            None => r,
        }
    }
}

/// `v` is an array of exactly the strings `ss`.
pub open spec fn is_str_array(v: Json, ss: Seq<Seq<char>>) -> bool {
    v matches Json::Array(a) && a@.len() == ss.len() && forall|i: int|
        0 <= i < ss.len() ==> is_str(#[trigger] a@[i], ss[i])
}

/// `s` summarises the package `p`: its name, version and manifest path as
/// they are, the names of its dependencies, their count, and its feature
/// names.
pub open spec fn member_summary(s: Json, p: Json) -> bool {
    let deps = names_in(items_of(member_or_null(p, "dependencies"@)));
    &&& keys(s) == seq![
        "name"@,
        "version"@,
        "manifest_path"@,
        "dependency_count"@,
        "dependencies"@,
        "features"@,
    ]
    &&& val(s, 0).deep_eq(member_or_null(p, "name"@))
    &&& val(s, 1).deep_eq(member_or_null(p, "version"@))
    &&& val(s, 2).deep_eq(member_or_null(p, "manifest_path"@))
    &&& is_num(val(s, 3), deps.len() as int)
    &&& is_str_array(val(s, 4), deps)
    &&& is_str_array(val(s, 5), keys(member_or_null(p, "features"@)))
}

/// `r` summarises the metadata `m`: the workspace root (empty when it is
/// missing), the number of packages, one summary per package in order, and
/// the string ids of the workspace members.
pub open spec fn metadata_summary(r: Json, m: Json) -> bool {
    let pkgs = items_of(member_or_null(m, "packages"@));
    &&& keys(r) == seq!["workspace_root"@, "member_count"@, "members"@, "workspace_member_ids"@]
    &&& is_str(val(r, 0), match m.str_field("workspace_root"@) {
        Some(t) => t,
        None => seq![],
    })
    &&& is_num(val(r, 1), pkgs.len() as int)
    &&& val(r, 2) matches Json::Array(a) && a@.len() == pkgs.len() && forall|i: int|
        0 <= i < pkgs.len() ==> member_summary(#[trigger] a@[i], pkgs[i])
    &&& is_str_array(val(r, 3), strings_in(items_of(member_or_null(m, "workspace_members"@))))
}

fn member_copy(v: &Json, key: &str) -> (r: Json)
    ensures
        r.deep_eq(member_or_null(*v, key@)),
{
    match v.get(key) {
        Some(m) => m.duplicate(),
        None => Json::Null,
    }
}

fn str_json(s: &String) -> (r: Json)
    ensures
        is_str(r, s@),
{
    Json::Str(s.clone())
}

/// The strings among the items of `v`, as a JSON array.
fn strings_array(v: Option<&Json>) -> (r: Json)
    ensures
        is_str_array(r, strings_in(items_of(match v {
            Some(x) => *x,
            None => Json::Null,
        }))),
{
    let mut out: Vec<Json> = Vec::new();
    let ghost items = items_of(match v {
        Some(x) => *x,
        None => Json::Null,
    });
    if let Some(Json::Array(a)) = v {
        let mut i: usize = 0;
        while i < a.len()
            invariant
                i <= a@.len(),
                items == a@,
                out@.len() == strings_in(a@.take(i as int)).len(),
                forall|j: int| 0 <= j < out@.len() ==> is_str(#[trigger] out@[j], strings_in(a@.take(i as int))[j]),
            decreases a@.len() - i,
        {
            proof {
                assert(a@.take(i + 1).drop_last() =~= a@.take(i as int));
            }
            if let Some(s) = a[i].as_str() {
                out.push(str_json(s));
            }
            i = i + 1;
        }
        proof {
            assert(a@.take(i as int) =~= a@);
        }
    }
    Json::Array(out)
}

/// The string `name` members among the items of `v`, as a JSON array.
fn names_array(v: Option<&Json>) -> (r: (Json, u64))
    ensures
        is_str_array(r.0, names_in(items_of(match v {
            Some(x) => *x,
            None => Json::Null,
        }))),
        r.1 == names_in(items_of(match v {
            Some(x) => *x,
            None => Json::Null,
        })).len(),
{
    let mut out: Vec<Json> = Vec::new();
    let ghost items = items_of(match v {
        Some(x) => *x,
        None => Json::Null,
    });
    if let Some(Json::Array(a)) = v {
        let mut i: usize = 0;
        while i < a.len()
            invariant
                i <= a@.len(),
                items == a@,
                out@.len() == names_in(a@.take(i as int)).len(),
                out@.len() <= i,
                forall|j: int| 0 <= j < out@.len() ==> is_str(#[trigger] out@[j], names_in(a@.take(i as int))[j]),
            decreases a@.len() - i,
        {
            proof {
                assert(a@.take(i + 1).drop_last() =~= a@.take(i as int));
            }
            if let Some(s) = a[i].get_str("name") {
                out.push(Json::Str(s));
            }
            i = i + 1;
        }
        proof {
            assert(a@.take(i as int) =~= a@);
        }
    }
    let n = out.len() as u64;
    (Json::Array(out), n)
}

/// The member names of `v` when it is an object, as a JSON array.
fn keys_array(v: Option<&Json>) -> (r: Json)
    ensures
        is_str_array(r, keys(match v {
            Some(x) => *x,
            None => Json::Null,
        })),
{
    let mut out: Vec<Json> = Vec::new();
    if let Some(Json::Object(es)) = v {
        let mut i: usize = 0;
        while i < es.len()
            invariant
                i <= es@.len(),
                out@.len() == i,
                forall|j: int| 0 <= j < i ==> is_str(#[trigger] out@[j], es@[j].0@),
            decreases es@.len() - i,
        {
            out.push(str_json(&es[i].0));
            i = i + 1;
        }
    }
    Json::Array(out)
}

/// The summary of one package.
fn summarize_package(p: &Json) -> (s: Json)
    ensures
        member_summary(s, *p),
{
    let (deps, n) = names_array(p.get("dependencies"));
    let mut es: Vec<(String, Json)> = Vec::new();
    es.push((string_from("name"), member_copy(p, "name")));
    es.push((string_from("version"), member_copy(p, "version")));
    es.push((string_from("manifest_path"), member_copy(p, "manifest_path")));
    es.push((string_from("dependency_count"), num_u64(n)));
    es.push((string_from("dependencies"), deps));
    es.push((string_from("features"), keys_array(p.get("features"))));
    let s = Json::Object(es);
    proof {
        assert(keys(s) =~= seq![
            "name"@,
            "version"@,
            "manifest_path"@,
            "dependency_count"@,
            "dependencies"@,
            "features"@,
        ]);
    }
    s
}

/// The summary of a workspace's `cargo metadata` document.
pub fn summarize_metadata(metadata: &Json) -> (r: Json)
    ensures
        metadata_summary(r, *metadata),
{
    let root = match metadata.get_str("workspace_root") {
        Some(t) => t,
        None => String::new(),
    };
    let mut members: Vec<Json> = Vec::new();
    let pv = metadata.get("packages");
    let ghost pkgs = items_of(member_or_null(*metadata, "packages"@));
    if let Some(Json::Array(a)) = pv {
        let mut i: usize = 0;
        while i < a.len()
            invariant
                i <= a@.len(),
                pkgs == a@,
                members@.len() == i,
                forall|j: int| 0 <= j < i ==> member_summary(#[trigger] members@[j], a@[j]),
            decreases a@.len() - i,
        {
            members.push(summarize_package(&a[i]));
            i = i + 1;
        }
    }
    let count = members.len() as u64;
    let mut es: Vec<(String, Json)> = Vec::new();
    es.push((string_from("workspace_root"), Json::Str(root)));
    es.push((string_from("member_count"), num_u64(count)));
    es.push((string_from("members"), Json::Array(members)));
    es.push((string_from("workspace_member_ids"), strings_array(metadata.get("workspace_members"))));
    let r = Json::Object(es);
    proof {
        assert(keys(r) =~= seq!["workspace_root"@, "member_count"@, "members"@, "workspace_member_ids"@]);
        assert(is_str(val(r, 0), match metadata.str_field("workspace_root"@) {
            Some(t) => t,
            None => seq![],
        }));
        assert(is_num(val(r, 1), pkgs.len() as int));
        assert(val(r, 2) matches Json::Array(a) && a@.len() == pkgs.len() && forall|i: int|
            0 <= i < pkgs.len() ==> member_summary(#[trigger] a@[i], pkgs[i]));
        assert(is_str_array(val(r, 3), strings_in(items_of(member_or_null(*metadata, "workspace_members"@)))));
    }
    r
}

/// The package named `crate_name` among the metadata's packages, the first
/// one when several are.
pub fn find_package(metadata: &Json, crate_name: &str) -> (r: Option<Json>)
    ensures
        ({
            let pkgs = items_of(member_or_null(*metadata, "packages"@));
            match r {
                Some(p) => exists|i: int|
                    #![trigger pkgs[i]]
                    0 <= i < pkgs.len() && p.deep_eq(pkgs[i]) && pkgs[i].str_field("name"@) == Some(crate_name@)
                        && forall|j: int| 0 <= j < i ==> (#[trigger] pkgs[j]).str_field("name"@) != Some(crate_name@),
                None => forall|j: int| 0 <= j < pkgs.len() ==> (#[trigger] pkgs[j]).str_field("name"@) != Some(crate_name@),
            }
        }),
{
    let ghost pkgs = items_of(member_or_null(*metadata, "packages"@));
    if let Some(Json::Array(a)) = metadata.get("packages") {
        let mut i: usize = 0;
        while i < a.len()
            invariant
                i <= a@.len(),
                pkgs == a@,
                pkgs == items_of(member_or_null(*metadata, "packages"@)),
                forall|j: int| 0 <= j < i ==> (#[trigger] a@[j]).str_field("name"@) != Some(crate_name@),
            decreases a@.len() - i,
        {
            if let Some(n) = a[i].get_str("name") {
                if eq_str(n.as_str(), crate_name) {
                    let d = a[i].duplicate();
                    proof {
                        let ps = items_of(member_or_null(*metadata, "packages"@));
                        assert(ps == a@);
                        assert(d.deep_eq(ps[i as int]) && ps[i as int].str_field("name"@) == Some(crate_name@));
                        assert(forall|j: int| 0 <= j < i ==> (#[trigger] ps[j]).str_field("name"@) != Some(crate_name@));
                    }
                    return Some(d);
                }
            }
            i = i + 1;
        }
    }
    None
}

/// `Crate not found: <name>`.
pub fn crate_not_found(crate_name: &str) -> (r: String)
    ensures
        r@ == "Crate not found: "@ + crate_name@,
{
    let mut t = chars_of("Crate not found: ");
    extend_str(&mut t, crate_name);
    string_of(t.as_slice())
}

} // verus!
