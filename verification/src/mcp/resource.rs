//! Resources exposed to clients and how their content type is guessed.
use vstd::prelude::*;
use crate::mcp::workspace::{components, path_components};
use crate::json::Json;
use crate::mcp::error::McpError;
use crate::portfolio::rpc::is_str;
use crate::text::{
    chars_of, concat2, concat3, eq_str, join, join_with, slice_copy, string_from, string_of, strs, views, words,
    words_of,
};

verus! {

/// A resource the server exposes.
#[derive(Debug)]
pub struct ResourceConfig {
    pub uri: String,
    pub name: String,
    pub description: Option<String>,
    pub resource_type: ResourceType,
    pub path: Option<String>,
    pub pattern: Option<String>,
    pub command: Option<String>,
    pub mime_type: Option<String>,
}

/// Where a resource's content comes from.
#[derive(Debug, Clone, Copy, PartialEq, Eq)]
pub enum ResourceType {
    File,
    Glob,
    Command,
}

/// The resources of the server.
pub struct ResourceRegistry {
    pub resources: Vec<ResourceConfig>,
}

impl ResourceRegistry {
    /// A registry of the given resources, in order.
    pub fn new(resources: Vec<ResourceConfig>) -> (r: ResourceRegistry)
        ensures
            r.resources@ == resources@,
    {
        ResourceRegistry { resources }
    }
}

/// `Path::file_name`: the last component when it is a normal one.
pub open spec fn file_name(p: Seq<char>) -> Option<Seq<char>> {
    let c = components(p);
    if c.len() == 0 || c.last() == "/"@ || c.last() == "."@ || c.last() == ".."@ {
        None
    } else {
        Some(c.last())
    }
}

/// Index of the last `.` in `s` at or before `i - 1`.
pub open spec fn last_dot_before(s: Seq<char>, i: int) -> Option<int>
    decreases i,
{
    if i <= 0 {
        None
    } else if s[i - 1] == '.' {
        Some(i - 1)
    } else {
        last_dot_before(s, i - 1)
    }
}

/// `Path::extension`: what follows the last `.` of the file name, unless
/// that dot begins the name.
pub open spec fn extension(p: Seq<char>) -> Option<Seq<char>> {
    match file_name(p) {
        None => None,
        Some(name) => match last_dot_before(name, name.len() as int) {
            None => None,
            Some(i) => if i == 0 {
                None
            } else {
                Some(name.subrange(i + 1, name.len() as int))
            },
        },
    }
}

/// The content type for a file extension.
pub open spec fn mime_for(ext: Option<Seq<char>>) -> Seq<char> {
    match ext {
        Some(e) => if e == "json"@ {
            "application/json"@
        } else if e == "toml"@ {
            "application/toml"@
        } else if e == "yaml"@ || e == "yml"@ {
            "application/yaml"@
        } else if e == "md"@ {
            "text/markdown"@
        } else if e == "sql"@ {
            "application/sql"@
        } else if e == "rs"@ {
            "text/x-rust"@
        } else if e == "ts"@ || e == "tsx"@ {
            "text/typescript"@
        } else if e == "js"@ || e == "jsx"@ {
            "text/javascript"@
        } else if e == "html"@ {
            "text/html"@
        } else if e == "css"@ {
            "text/css"@
        } else {
            "text/plain"@
        },
        None => "text/plain"@,
    }
}

fn last_dot(s: &[char]) -> (r: Option<usize>)
    ensures
        match r {
            Some(i) => last_dot_before(s@, s@.len() as int) == Some(i as int) && i < s@.len(),
            None => last_dot_before(s@, s@.len() as int) is None,
        },
{
    let mut i = s.len();
    while i > 0
        invariant
            i <= s@.len(),
            last_dot_before(s@, s@.len() as int) == last_dot_before(s@, i as int),
        decreases i,
    {
        if s[i - 1] == '.' {
            return Some(i - 1);
        }
        i = i - 1;
    }
    None
}

/// The extension of `path`, as `Path::extension` gives it.
pub fn path_extension(path: &str) -> (r: Option<String>)
    ensures
        match r {
            Some(e) => extension(path@) == Some(e@),
            None => extension(path@) is None,
        },
{
    let pc = chars_of(path);
    let comps = path_components(pc.as_slice());
    let n = comps.len();
    if n == 0 {
        return None;
    }
    let last = &comps[n - 1];
    proof {
        assert(last@ == components(path@).last());
    }
    let ls = string_of(last.as_slice());
    if eq_str(ls.as_str(), "/") || eq_str(ls.as_str(), ".") || eq_str(ls.as_str(), "..") {
        return None;
    }
    let ls_chars = last.as_slice();
    match last_dot(ls_chars) {
        None => None,
        Some(i) => if i == 0 {
            None
        } else {
            let n2 = ls_chars.len();
            assert(i < n2);
            let e = slice_copy(ls_chars, i + 1, n2);
            Some(string_of(e.as_slice()))
        },
    }
}

/// Guess a content type from the file extension of `path`.
pub fn guess_mime(path: &str) -> (r: String)
    ensures
        r@ == mime_for(extension(path@)),
{
    let ext = path_extension(path);
    let m = match &ext {
        Some(e) => {
            let e = e.as_str();
            if eq_str(e, "json") {
                "application/json"
            } else if eq_str(e, "toml") {
                "application/toml"
            } else if eq_str(e, "yaml") || eq_str(e, "yml") {
                "application/yaml"
            } else if eq_str(e, "md") {
                "text/markdown"
            } else if eq_str(e, "sql") {
                "application/sql"
            } else if eq_str(e, "rs") {
                "text/x-rust"
            } else if eq_str(e, "ts") || eq_str(e, "tsx") {
                "text/typescript"
            } else if eq_str(e, "js") || eq_str(e, "jsx") {
                "text/javascript"
            } else if eq_str(e, "html") {
                "text/html"
            } else if eq_str(e, "css") {
                "text/css"
            } else {
                "text/plain"
            }
        },
        None => "text/plain",
    };
    string_from(m)
}


/// A resource's entry in `resources/list`: its uri and name, then its
/// description and its content type when it has them.
pub open spec fn listing_entry(j: Json, r: ResourceConfig) -> bool {
    let d: int = if r.description is Some { 1 } else { 0 };
    let m: int = if r.mime_type is Some { 1 } else { 0 };
    &&& j matches Json::Object(es)
    &&& j->Object_0@.len() == 2 + d + m
    &&& j->Object_0@[0].0@ == "uri"@ && is_str(j->Object_0@[0].1, r.uri@)
    &&& j->Object_0@[1].0@ == "name"@ && is_str(j->Object_0@[1].1, r.name@)
    &&& r.description matches Some(t) ==> j->Object_0@[2].0@ == "description"@ && is_str(j->Object_0@[2].1, t@)
    &&& r.mime_type matches Some(t) ==> j->Object_0@[2 + d].0@ == "mimeType"@ && is_str(j->Object_0@[2 + d].1, t@)
}

/// `r` is `{"resources": [...]}` with one entry per resource, in order.
pub open spec fn listing_is(r: Json, res: Seq<ResourceConfig>) -> bool {
    &&& r matches Json::Object(es)
    &&& r->Object_0@.len() == 1
    &&& r->Object_0@[0].0@ == "resources"@
    &&& r->Object_0@[0].1 matches Json::Array(items)
    &&& r->Object_0@[0].1->Array_0@.len() == res.len()
    &&& forall|i: int|
        0 <= i < res.len() ==> listing_entry(#[trigger] r->Object_0@[0].1->Array_0@[i], res[i])
}

/// `r` is `{"contents": [{"uri": uri, "mimeType": mime, "text": text}]}`.
pub open spec fn read_is(r: Json, uri: Seq<char>, mime: Seq<char>, text: Seq<char>) -> bool {
    &&& r matches Json::Object(es)
    &&& r->Object_0@.len() == 1
    &&& r->Object_0@[0].0@ == "contents"@
    &&& r->Object_0@[0].1 matches Json::Array(items)
    &&& r->Object_0@[0].1->Array_0@.len() == 1
    &&& r->Object_0@[0].1->Array_0@[0] matches Json::Object(f)
    &&& r->Object_0@[0].1->Array_0@[0]->Object_0@.len() == 3
    &&& r->Object_0@[0].1->Array_0@[0]->Object_0@[0].0@ == "uri"@
    &&& is_str(r->Object_0@[0].1->Array_0@[0]->Object_0@[0].1, uri)
    &&& r->Object_0@[0].1->Array_0@[0]->Object_0@[1].0@ == "mimeType"@
    &&& is_str(r->Object_0@[0].1->Array_0@[0]->Object_0@[1].1, mime)
    &&& r->Object_0@[0].1->Array_0@[0]->Object_0@[2].0@ == "text"@
    &&& is_str(r->Object_0@[0].1->Array_0@[0]->Object_0@[2].1, text)
}

fn listing_entry_of(r: &ResourceConfig) -> (j: Json)
    ensures
        listing_entry(j, *r),
{
    let mut es: Vec<(String, Json)> = Vec::new();
    es.push((string_from("uri"), Json::Str(r.uri.clone())));
    es.push((string_from("name"), Json::Str(r.name.clone())));
    if let Some(d) = &r.description {
        es.push((string_from("description"), Json::Str(d.clone())));
    }
    if let Some(m) = &r.mime_type {
        es.push((string_from("mimeType"), Json::Str(m.clone())));
    }
    Json::Object(es)
}

impl ResourceRegistry {
    /// The `resources/list` result: `{"resources": [...]}`, one entry per
    /// resource in order.
    pub fn list(&self) -> (r: Json)
        ensures
            listing_is(r, self.resources@),
    {
        let mut items: Vec<Json> = Vec::new();
        let mut i: usize = 0;
        while i < self.resources.len()
            invariant
                i <= self.resources@.len(),
                items@.len() == i,
                forall|k: int| 0 <= k < i ==> listing_entry(#[trigger] items@[k], self.resources@[k]),
            decreases self.resources@.len() - i,
        {
            items.push(listing_entry_of(&self.resources[i]));
            i = i + 1;
        }
        let mut es: Vec<(String, Json)> = Vec::new();
        es.push((string_from("resources"), Json::Array(items)));
        Json::Object(es)
    }

    /// The index of the first resource with `uri`; `ResourceNotFound` when
    /// there is none.
    pub fn find(&self, uri: &str) -> (r: Result<usize, McpError>)
        ensures
            match r {
                Ok(i) => i < self.resources@.len() && self.resources@[i as int].uri@ == uri@ && forall|j: int|
                    0 <= j < i ==> (#[trigger] self.resources@[j]).uri@ != uri@,
                Err(e) => (e matches McpError::ResourceNotFound { uri: u } && u@ == uri@) && forall|j: int|
                    0 <= j < self.resources@.len() ==> (#[trigger] self.resources@[j]).uri@ != uri@,
            },
    {
        let mut i: usize = 0;
        while i < self.resources.len()
            invariant
                i <= self.resources@.len(),
                forall|j: int| 0 <= j < i ==> (#[trigger] self.resources@[j]).uri@ != uri@,
            decreases self.resources@.len() - i,
        {
            if eq_str(self.resources[i].uri.as_str(), uri) {
                return Ok(i);
            }
            i = i + 1;
        }
        Err(McpError::ResourceNotFound { uri: string_from(uri) })
    }
}

/// The path a `file` resource reads; a configuration error when it has
/// none.
pub fn file_source(res: &ResourceConfig) -> (r: Result<String, McpError>)
    ensures
        match res.path {
            Some(p) => r matches Ok(x) && x@ == p@,
            None => r matches Err(McpError::ConfigError { details }) && details@ == "Resource '"@ + res.uri@
                + "' of type 'file' requires a 'path' field"@,
        },
{
    match &res.path {
        Some(p) => Ok(p.clone()),
        None => Err(McpError::ConfigError {
            details: concat3("Resource '", chars_of(res.uri.as_str()).as_slice(), "' of type 'file' requires a 'path' field"),
        }),
    }
}

/// The pattern a `glob` resource expands: its pattern, else its path; a
/// configuration error when it has neither.
pub fn glob_source(res: &ResourceConfig) -> (r: Result<String, McpError>)
    ensures
        match (res.pattern, res.path) {
            (Some(p), _) => r matches Ok(x) && x@ == p@,
            (None, Some(p)) => r matches Ok(x) && x@ == p@,
            (None, None) => r matches Err(McpError::ConfigError { details }) && details@ == "Resource '"@
                + res.uri@ + "' of type 'glob' requires a 'pattern' or 'path' field"@,
        },
{
    match (&res.pattern, &res.path) {
        (Some(p), _) => Ok(p.clone()),
        (None, Some(p)) => Ok(p.clone()),
        (None, None) => Err(McpError::ConfigError {
            details: concat3(
                "Resource '",
                chars_of(res.uri.as_str()).as_slice(),
                "' of type 'glob' requires a 'pattern' or 'path' field",
            ),
        }),
    }
}

/// The program and arguments a `command` resource runs: the words of its
/// command; a configuration error when it has none or it is blank.
pub fn command_words(res: &ResourceConfig) -> (r: Result<Vec<String>, McpError>)
    ensures
        match res.command {
            Some(c) => if words_of(c@).len() > 0 {
                r matches Ok(ws) && strs(ws@) == words_of(c@)
            } else {
                r matches Err(McpError::ConfigError { details }) && details@ == "Resource '"@ + res.uri@
                    + "' has empty command"@
            },
            None => r matches Err(McpError::ConfigError { details }) && details@ == "Resource '"@ + res.uri@
                + "' of type 'command' requires a 'command' field"@,
        },
{
    match &res.command {
        None => Err(McpError::ConfigError {
            details: concat3(
                "Resource '",
                chars_of(res.uri.as_str()).as_slice(),
                "' of type 'command' requires a 'command' field",
            ),
        }),
        Some(c) => {
            let ws = words(chars_of(c.as_str()).as_slice());
            if ws.len() == 0 {
                return Err(McpError::ConfigError {
                    details: concat3("Resource '", chars_of(res.uri.as_str()).as_slice(), "' has empty command"),
                });
            }
            let mut out: Vec<String> = Vec::new();
            let mut i: usize = 0;
            while i < ws.len()
                invariant
                    i <= ws@.len(),
                    out@.len() == i,
                    forall|k: int| 0 <= k < i ==> (#[trigger] out@[k])@ == ws@[k]@,
                decreases ws@.len() - i,
            {
                out.push(string_of(ws[i].as_slice()));
                i = i + 1;
            }
            proof {
                assert(strs(out@) =~= views(ws@));
            }
            Ok(out)
        },
    }
}

/// The error for a `file` resource whose file does not exist.
pub fn file_missing(uri: &str, path: &str) -> (e: McpError)
    ensures
        e matches McpError::ResourceNotFound { uri: u } && u@ == uri@ + " (file: "@ + path@ + ")"@,
{
    let mut t = chars_of(uri);
    crate::text::extend_str(&mut t, " (file: ");
    crate::text::extend_str(&mut t, path);
    crate::text::extend_str(&mut t, ")");
    McpError::ResourceNotFound { uri: string_of(t.as_slice()) }
}

/// The `resources/read` result: `{"contents": [{"uri", "mimeType",
/// "text"}]}`.
pub fn read_result(uri: &str, mime_type: String, text: String) -> (r: Json)
    ensures
        read_is(r, uri@, mime_type@, text@),
{
    let mut f: Vec<(String, Json)> = Vec::new();
    f.push((string_from("uri"), Json::Str(string_from(uri))));
    f.push((string_from("mimeType"), Json::Str(mime_type)));
    f.push((string_from("text"), Json::Str(text)));
    let mut items: Vec<Json> = Vec::new();
    items.push(Json::Object(f));
    let mut es: Vec<(String, Json)> = Vec::new();
    es.push((string_from("contents"), Json::Array(items)));
    Json::Object(es)
}

/// The key by which a path sorts: its characters' code points, which order
/// as the bytes of its UTF-8 text do.
pub open spec fn path_keys(files: Seq<String>) -> Seq<Seq<u32>> {
    files.map_values(|f: String| crate::order::codes(f@))
}

/// The matched files of a `glob` resource as its text: sorted, one per
/// line.
pub fn sorted_lines(files: &Vec<String>) -> (r: String)
    ensures
        exists|p: Seq<int>|
            #[trigger] crate::order::stable_order(path_keys(files@), p) && r@ == join(
                p.map_values(|i: int| files@[i]@),
                "\n"@,
            ),
{
    let mut keys: Vec<Vec<u32>> = Vec::new();
    let mut i: usize = 0;
    while i < files.len()
        invariant
            i <= files@.len(),
            keys@.len() == i,
            forall|k: int| 0 <= k < i ==> (#[trigger] keys@[k])@ == crate::order::codes(files@[k]@),
        decreases files@.len() - i,
    {
        keys.push(crate::order::char_codes(chars_of(files[i].as_str()).as_slice()));
        i = i + 1;
    }
    let order = crate::order::stable_sort_order(&keys);
    let ghost ks = keys@.map_values(|k: Vec<u32>| k@);
    proof {
        assert(ks =~= path_keys(files@));
    }
    let mut parts: Vec<Vec<char>> = Vec::new();
    let mut j: usize = 0;
    while j < order.len()
        invariant
            j <= order@.len(),
            crate::order::stable_order(ks, order@.map_values(|i: usize| i as int)),
            ks.len() == files@.len(),
            parts@.len() == j,
            forall|q: int| 0 <= q < j ==> (#[trigger] parts@[q])@ == files@[order@[q] as int]@,
        decreases order@.len() - j,
    {
        proof {
            assert(order@.map_values(|i: usize| i as int)[j as int] == order@[j as int] as int);
        }
        parts.push(chars_of(files[order[j]].as_str()));
        j = j + 1;
    }
    let joined = join_with(parts.as_slice(), chars_of("\n").as_slice());
    proof {
        let p = order@.map_values(|i: usize| i as int);
        assert(views(parts@) =~= p.map_values(|i: int| files@[i]@));
        assert(crate::order::stable_order(path_keys(files@), p));
    }
    string_of(joined.as_slice())
}
} // verus!
