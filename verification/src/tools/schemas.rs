//! The input schemas of the server's tools, as `tools/list` shows them.
use vstd::prelude::*;
use crate::json::Json;
use crate::portfolio::report::{is_num, num_u64};
use crate::portfolio::rpc::is_str;
use crate::text::{eq_str, string_from};

verus! {

/// A value in a property's schema.
pub enum Val {
    Bool(bool),
    Num(nat),
    Text(Seq<char>),
    /// An array of strings.
    Texts(Seq<Seq<char>>),
    /// `{"type": t}`.
    TypeOf(Seq<char>),
    /// `{}`.
    Empty,
}

/// A property: its name and the members of its schema, in order.
pub type PropView = (Seq<char>, Seq<(Seq<char>, Val)>);

/// `j` is the document of `v`.
pub open spec fn val_json(j: Json, v: Val) -> bool {
    match v {
        Val::Bool(b) => j == Json::Bool(b),
        Val::Num(n) => is_num(j, n as int),
        Val::Text(t) => is_str(j, t),
        Val::Texts(ts) => j matches Json::Array(a) && a@.len() == ts.len() && forall|i: int|
            0 <= i < ts.len() ==> is_str(#[trigger] a@[i], ts[i]),
        Val::TypeOf(t) => j matches Json::Object(es) && es@.len() == 1 && es@[0].0@ == "type"@ && is_str(
            es@[0].1,
            t,
        ),
        Val::Empty => j matches Json::Object(es) && es@.len() == 0,
    }
}

/// `d` is the schema object with the members `ms`, in order.
pub open spec fn members_json(d: Json, ms: Seq<(Seq<char>, Val)>) -> bool {
    &&& d matches Json::Object(m)
    &&& d->Object_0@.len() == ms.len()
    &&& forall|k: int|
        0 <= k < ms.len() ==> (#[trigger] d->Object_0@[k]).0@ == ms[k].0 && val_json(d->Object_0@[k].1, ms[k].1)
}

/// `s` is `{"type": "object", "properties": {..}, "required": [..]}` with
/// the properties `props` in order, and the required names when the schema
/// lists them.
pub open spec fn schema_json(s: Json, props: Seq<PropView>, required: Option<Seq<Seq<char>>>) -> bool {
    &&& s matches Json::Object(es)
    &&& s->Object_0@.len() == if required is Some {
        3int
    } else {
        2int
    }
    &&& s->Object_0@[0].0@ == "type"@ && is_str(s->Object_0@[0].1, "object"@)
    &&& s->Object_0@[1].0@ == "properties"@
    &&& s->Object_0@[1].1 matches Json::Object(ps)
    &&& s->Object_0@[1].1->Object_0@.len() == props.len()
    &&& forall|i: int|
        0 <= i < props.len() ==> (#[trigger] s->Object_0@[1].1->Object_0@[i]).0@ == props[i].0 && members_json(
            s->Object_0@[1].1->Object_0@[i].1,
            props[i].1,
        )
    &&& required matches Some(r) ==> s->Object_0@[2].0@ == "required"@ && (s->Object_0@[2].1 matches Json::Array(
        rs,
    ) && rs@.len() == r.len() && forall|i: int| 0 <= i < r.len() ==> is_str(#[trigger] rs@[i], r[i]))
}

/// The schema of each tool: its properties and its required names.
/// The schema of `cargo_build`.
pub open spec fn schema_cargo_build() -> (Seq<PropView>, Option<Seq<Seq<char>>>) {
    (
        seq![
            ("release"@, seq![("type"@, Val::Text("boolean"@)), ("description"@, Val::Text("Build in release mode with optimizations"@)), ("default"@, Val::Bool(false))]),
            ("package"@, seq![("type"@, Val::Text("string"@)), ("description"@, Val::Text("Specific package to build in a workspace"@))]),
            ("path"@, seq![("type"@, Val::Text("string"@)), ("description"@, Val::Text("Working directory path for cargo build (defaults to configured workspace root)"@))]),
        ],
        Some(seq![]),
    )
}

/// The schema of `cargo_check`.
pub open spec fn schema_cargo_check() -> (Seq<PropView>, Option<Seq<Seq<char>>>) {
    (
        seq![
            ("path"@, seq![("type"@, Val::Text("string"@)), ("description"@, Val::Text("Working directory path for cargo check (defaults to configured workspace root)"@))]),
            ("package"@, seq![("type"@, Val::Text("string"@)), ("description"@, Val::Text("Specific package to check in a workspace"@))]),
        ],
        Some(seq![]),
    )
}

/// The schema of `cargo_test`.
pub open spec fn schema_cargo_test() -> (Seq<PropView>, Option<Seq<Seq<char>>>) {
    (
        seq![
            ("test_name"@, seq![("type"@, Val::Text("string"@)), ("description"@, Val::Text("Specific test name or pattern to run"@))]),
            ("package"@, seq![("type"@, Val::Text("string"@)), ("description"@, Val::Text("Specific package to test in a workspace"@))]),
            ("no_capture"@, seq![("type"@, Val::Text("boolean"@)), ("description"@, Val::Text("Whether to show test output (--nocapture)"@)), ("default"@, Val::Bool(false))]),
            ("path"@, seq![("type"@, Val::Text("string"@)), ("description"@, Val::Text("Working directory path for cargo test (defaults to configured workspace root)"@))]),
        ],
        Some(seq![]),
    )
}

/// The schema of `check_command`.
pub open spec fn schema_check_command() -> (Seq<PropView>, Option<Seq<Seq<char>>>) {
    (
        seq![
            ("command"@, seq![("type"@, Val::Text("string"@)), ("description"@, Val::Text("Name of the command to check (e.g., 'rustc', 'cargo', 'git')"@))]),
        ],
        Some(seq!["command"@]),
    )
}

/// The schema of `file_stats`.
pub open spec fn schema_file_stats() -> (Seq<PropView>, Option<Seq<Seq<char>>>) {
    (
        seq![
            ("path"@, seq![("type"@, Val::Text("string"@)), ("description"@, Val::Text("Path to the file or directory to get statistics for"@))]),
        ],
        Some(seq!["path"@]),
    )
}

/// The schema of `find_files`.
pub open spec fn schema_find_files() -> (Seq<PropView>, Option<Seq<Seq<char>>>) {
    (
        seq![
            ("pattern"@, seq![("type"@, Val::Text("string"@)), ("description"@, Val::Text("Glob pattern to match file names (e.g., '*.rs', 'test_*.py', 'README*')"@))]),
            ("path"@, seq![("type"@, Val::Text("string"@)), ("description"@, Val::Text("Base path to search in (defaults to current directory)"@))]),
            ("max_depth"@, seq![("type"@, Val::Text("integer"@)), ("description"@, Val::Text("Maximum directory depth to search (unlimited if not specified)"@)), ("minimum"@, Val::Num(1))]),
            ("max_results"@, seq![("type"@, Val::Text("integer"@)), ("description"@, Val::Text("Maximum number of results to return (default: 1000)"@)), ("default"@, Val::Num(1000))]),
            ("include_dirs"@, seq![("type"@, Val::Text("boolean"@)), ("description"@, Val::Text("Whether to include directories in results (default: false)"@)), ("default"@, Val::Bool(false))]),
        ],
        Some(seq!["pattern"@]),
    )
}

/// The schema of `grep_file`.
pub open spec fn schema_grep_file() -> (Seq<PropView>, Option<Seq<Seq<char>>>) {
    (
        seq![
            ("path"@, seq![("type"@, Val::Text("string"@)), ("description"@, Val::Text("Path to the file to search"@))]),
            ("pattern"@, seq![("type"@, Val::Text("string"@)), ("description"@, Val::Text("The text pattern to search for"@))]),
            ("case_sensitive"@, seq![("type"@, Val::Text("boolean"@)), ("description"@, Val::Text("Whether the search should be case-sensitive"@)), ("default"@, Val::Bool(true))]),
        ],
        Some(seq!["path"@, "pattern"@]),
    )
}

/// The schema of `grep_project`.
pub open spec fn schema_grep_project() -> (Seq<PropView>, Option<Seq<Seq<char>>>) {
    (
        seq![
            ("pattern"@, seq![("type"@, Val::Text("string"@)), ("description"@, Val::Text("The text or regex pattern to search for"@))]),
            ("path"@, seq![("type"@, Val::Text("string"@)), ("description"@, Val::Text("Base path to search in (defaults to configured workspace root)"@))]),
            ("include_glob"@, seq![("type"@, Val::Text("string"@)), ("description"@, Val::Text("Glob pattern to include files (e.g., '*.rs', '*.txt')"@))]),
            ("exclude_glob"@, seq![("type"@, Val::Text("string"@)), ("description"@, Val::Text("Glob pattern to exclude files (e.g., '*.log', 'target/*')"@))]),
            ("max_results"@, seq![("type"@, Val::Text("integer"@)), ("description"@, Val::Text("Maximum number of matches to return (default: 1000)"@)), ("default"@, Val::Num(1000))]),
            ("case_sensitive"@, seq![("type"@, Val::Text("boolean"@)), ("description"@, Val::Text("Whether the search should be case-sensitive"@)), ("default"@, Val::Bool(true))]),
        ],
        Some(seq!["pattern"@]),
    )
}

/// The schema of `health`.
pub open spec fn schema_health() -> (Seq<PropView>, Option<Seq<Seq<char>>>) {
    (
        seq![
            ("detail_level"@, seq![("type"@, Val::Text("string"@)), ("description"@, Val::Text("Level of detail for health information"@)), ("enum"@, Val::Texts(seq!["basic"@, "detailed"@])), ("default"@, Val::Text("basic"@))]),
        ],
        None,
    )
}

/// The schema of `json_query`.
pub open spec fn schema_json_query() -> (Seq<PropView>, Option<Seq<Seq<char>>>) {
    (
        seq![
            ("path"@, seq![("type"@, Val::Text("string"@)), ("description"@, Val::Text("Path to the JSON file to read"@))]),
            ("query"@, seq![("type"@, Val::Text("string"@)), ("description"@, Val::Text("Dot-separated path to query (e.g., 'package.name', 'dependencies.0.name')"@))]),
        ],
        Some(seq!["path"@]),
    )
}

/// The schema of `just_run`.
pub open spec fn schema_just_run() -> (Seq<PropView>, Option<Seq<Seq<char>>>) {
    (
        seq![
            ("recipe"@, seq![("type"@, Val::Text("string"@)), ("description"@, Val::Text("The just recipe to execute"@))]),
            ("args"@, seq![("type"@, Val::Text("array"@)), ("items"@, Val::TypeOf("string"@)), ("description"@, Val::Text("Arguments to pass to the recipe"@))]),
            ("path"@, seq![("type"@, Val::Text("string"@)), ("description"@, Val::Text("Working directory (defaults to current directory)"@))]),
        ],
        Some(seq!["recipe"@]),
    )
}

/// The schema of `list_directory`.
pub open spec fn schema_list_directory() -> (Seq<PropView>, Option<Seq<Seq<char>>>) {
    (
        seq![
            ("path"@, seq![("type"@, Val::Text("string"@)), ("description"@, Val::Text("Path to the directory to list"@))]),
            ("recursive"@, seq![("type"@, Val::Text("boolean"@)), ("description"@, Val::Text("Whether to list contents recursively"@)), ("default"@, Val::Bool(false))]),
            ("pattern"@, seq![("type"@, Val::Text("string"@)), ("description"@, Val::Text("Filter entries by name pattern (simple substring match)"@))]),
        ],
        Some(seq!["path"@]),
    )
}

/// The schema of `markdown_query`.
pub open spec fn schema_markdown_query() -> (Seq<PropView>, Option<Seq<Seq<char>>>) {
    (
        seq![
            ("path"@, seq![("type"@, Val::Text("string"@)), ("description"@, Val::Text("Path to the markdown file"@))]),
            ("action"@, seq![("type"@, Val::Text("string"@)), ("description"@, Val::Text("Action to perform"@)), ("enum"@, Val::Texts(seq!["list_headings"@, "get_section"@, "list_tables"@, "search_content"@]))]),
            ("filter"@, seq![("type"@, Val::Text("string"@)), ("description"@, Val::Text("For get_section: heading text to find. For search_content: search term"@))]),
        ],
        Some(seq!["path"@, "action"@]),
    )
}

/// The schema of `migration_list`.
pub open spec fn schema_migration_list() -> (Seq<PropView>, Option<Seq<Seq<char>>>) {
    (
        seq![
            ("migrations_dir"@, seq![("type"@, Val::Text("string"@)), ("description"@, Val::Text("Path to the migrations directory"@))]),
        ],
        Some(seq!["migrations_dir"@]),
    )
}

/// The schema of `read_env`.
pub open spec fn schema_read_env() -> (Seq<PropView>, Option<Seq<Seq<char>>>) {
    (
        seq![
            ("name"@, seq![("type"@, Val::Text("string"@)), ("description"@, Val::Text("Specific environment variable name to read"@))]),
            ("prefix"@, seq![("type"@, Val::Text("string"@)), ("description"@, Val::Text("Filter variables by name prefix (e.g., 'CARGO', 'PATH')"@))]),
        ],
        Some(seq![]),
    )
}

/// The schema of `read_file`.
pub open spec fn schema_read_file() -> (Seq<PropView>, Option<Seq<Seq<char>>>) {
    (
        seq![
            ("path"@, seq![("type"@, Val::Text("string"@)), ("description"@, Val::Text("Path to the file to read"@))]),
            ("start_line"@, seq![("type"@, Val::Text("integer"@)), ("description"@, Val::Text("Starting line number (1-indexed, inclusive)"@)), ("minimum"@, Val::Num(1))]),
            ("end_line"@, seq![("type"@, Val::Text("integer"@)), ("description"@, Val::Text("Ending line number (1-indexed, inclusive)"@)), ("minimum"@, Val::Num(1))]),
        ],
        Some(seq!["path"@]),
    )
}

/// The schema of `read_toml`.
pub open spec fn schema_read_toml() -> (Seq<PropView>, Option<Seq<Seq<char>>>) {
    (
        seq![
            ("path"@, seq![("type"@, Val::Text("string"@)), ("description"@, Val::Text("Path to the TOML file to read"@))]),
            ("query"@, seq![("type"@, Val::Text("string"@)), ("description"@, Val::Text("Dot-separated path to query (e.g., 'package.name', 'dependencies')"@))]),
        ],
        Some(seq!["path"@]),
    )
}

/// The schema of `say_hello`.
pub open spec fn schema_say_hello() -> (Seq<PropView>, Option<Seq<Seq<char>>>) {
    (
        seq![
            ("name"@, seq![("type"@, Val::Text("string"@))]),
        ],
        Some(seq!["name"@]),
    )
}

/// The schema of `sqlite_query`.
pub open spec fn schema_sqlite_query() -> (Seq<PropView>, Option<Seq<Seq<char>>>) {
    (
        seq![
            ("db_path"@, seq![("type"@, Val::Text("string"@)), ("description"@, Val::Text("Path to the SQLite database file"@))]),
            ("query"@, seq![("type"@, Val::Text("string"@)), ("description"@, Val::Text("SQL query to execute (SELECT, PRAGMA, EXPLAIN, or WITH only)"@))]),
            ("params"@, seq![("type"@, Val::Text("array"@)), ("items"@, Val::Empty), ("description"@, Val::Text("Query parameters for prepared statements"@))]),
            ("max_rows"@, seq![("type"@, Val::Text("integer"@)), ("description"@, Val::Text("Maximum rows to return (default: 500)"@)), ("default"@, Val::Num(500))]),
        ],
        Some(seq!["db_path"@, "query"@]),
    )
}

/// The schema of `sqlite_schema`.
pub open spec fn schema_sqlite_schema() -> (Seq<PropView>, Option<Seq<Seq<char>>>) {
    (
        seq![
            ("db_path"@, seq![("type"@, Val::Text("string"@)), ("description"@, Val::Text("Path to the SQLite database file"@))]),
            ("table"@, seq![("type"@, Val::Text("string"@)), ("description"@, Val::Text("Specific table to inspect (omit for all tables)"@))]),
        ],
        Some(seq!["db_path"@]),
    )
}

/// The schema of `system_info`.
pub open spec fn schema_system_info() -> (Seq<PropView>, Option<Seq<Seq<char>>>) {
    (
        seq![
            ],
        Some(seq![]),
    )
}

/// The schema of `workspace_info`.
pub open spec fn schema_workspace_info() -> (Seq<PropView>, Option<Seq<Seq<char>>>) {
    (
        seq![
            ("path"@, seq![("type"@, Val::Text("string"@)), ("description"@, Val::Text("Path to the workspace root (defaults to current directory)"@))]),
            ("crate_name"@, seq![("type"@, Val::Text("string"@)), ("description"@, Val::Text("Filter to a specific crate by name"@))]),
        ],
        None,
    )
}

/// The schema of each tool: its properties and its required names; a
/// name without one has none of either.
pub open spec fn tool_schema(name: Seq<char>) -> (Seq<PropView>, Option<Seq<Seq<char>>>) {
    if name == "cargo_build"@ {
        schema_cargo_build()
    } else if name == "cargo_check"@ {
        schema_cargo_check()
    } else if name == "cargo_test"@ {
        schema_cargo_test()
    } else if name == "check_command"@ {
        schema_check_command()
    } else if name == "file_stats"@ {
        schema_file_stats()
    } else if name == "find_files"@ {
        schema_find_files()
    } else if name == "grep_file"@ {
        schema_grep_file()
    } else if name == "grep_project"@ {
        schema_grep_project()
    } else if name == "health"@ {
        schema_health()
    } else if name == "json_query"@ {
        schema_json_query()
    } else if name == "just_run"@ {
        schema_just_run()
    } else if name == "list_directory"@ {
        schema_list_directory()
    } else if name == "markdown_query"@ {
        schema_markdown_query()
    } else if name == "migration_list"@ {
        schema_migration_list()
    } else if name == "read_env"@ {
        schema_read_env()
    } else if name == "read_file"@ {
        schema_read_file()
    } else if name == "read_toml"@ {
        schema_read_toml()
    } else if name == "say_hello"@ {
        schema_say_hello()
    } else if name == "sqlite_query"@ {
        schema_sqlite_query()
    } else if name == "sqlite_schema"@ {
        schema_sqlite_schema()
    } else if name == "system_info"@ {
        schema_system_info()
    } else if name == "workspace_info"@ {
        schema_workspace_info()
    } else {
        (seq![], Some(seq![]))
    }
}

/// A value in a property's schema, as data.
pub enum ValDef {
    Bool(bool),
    Num(u64),
    Text(&'static str),
    Texts(Vec<&'static str>),
    TypeOf(&'static str),
    Empty,
}

/// A property's schema, as data.
pub struct PropDef {
    pub name: &'static str,
    pub members: Vec<(&'static str, ValDef)>,
}

/// The value `v` stands for.
pub open spec fn val_of(v: ValDef) -> Val {
    match v {
        ValDef::Bool(b) => Val::Bool(b),
        ValDef::Num(n) => Val::Num(n as nat),
        ValDef::Text(t) => Val::Text(t@),
        ValDef::Texts(ts) => Val::Texts(ts@.map_values(|t: &str| t@)),
        ValDef::TypeOf(t) => Val::TypeOf(t@),
        ValDef::Empty => Val::Empty,
    }
}

/// The property `p` stands for.
pub open spec fn prop_of(p: PropDef) -> PropView {
    (p.name@, p.members@.map_values(|e: (&str, ValDef)| (e.0@, val_of(e.1))))
}

/// The required names `r` stands for.
pub open spec fn required_of(r: Option<Vec<&str>>) -> Option<Seq<Seq<char>>> {
    match r {
        Some(v) => Some(v@.map_values(|t: &str| t@)),
        None => None,
    }
}

fn def_cargo_build() -> (r: (Vec<PropDef>, Option<Vec<&'static str>>))
    ensures
        r.0@.map_values(|p: PropDef| prop_of(p)) =~~= schema_cargo_build().0,
        required_of(r.1) =~~= schema_cargo_build().1,
{
    (
        vec![
            PropDef { name: "release", members: vec![("type", ValDef::Text("boolean")), ("description", ValDef::Text("Build in release mode with optimizations")), ("default", ValDef::Bool(false))] },
            PropDef { name: "package", members: vec![("type", ValDef::Text("string")), ("description", ValDef::Text("Specific package to build in a workspace"))] },
            PropDef { name: "path", members: vec![("type", ValDef::Text("string")), ("description", ValDef::Text("Working directory path for cargo build (defaults to configured workspace root)"))] },
        ],
        Some(vec![]),
    )
}

fn def_cargo_check() -> (r: (Vec<PropDef>, Option<Vec<&'static str>>))
    ensures
        r.0@.map_values(|p: PropDef| prop_of(p)) =~~= schema_cargo_check().0,
        required_of(r.1) =~~= schema_cargo_check().1,
{
    (
        vec![
            PropDef { name: "path", members: vec![("type", ValDef::Text("string")), ("description", ValDef::Text("Working directory path for cargo check (defaults to configured workspace root)"))] },
            PropDef { name: "package", members: vec![("type", ValDef::Text("string")), ("description", ValDef::Text("Specific package to check in a workspace"))] },
        ],
        Some(vec![]),
    )
}

fn def_cargo_test() -> (r: (Vec<PropDef>, Option<Vec<&'static str>>))
    ensures
        r.0@.map_values(|p: PropDef| prop_of(p)) =~~= schema_cargo_test().0,
        required_of(r.1) =~~= schema_cargo_test().1,
{
    (
        vec![
            PropDef { name: "test_name", members: vec![("type", ValDef::Text("string")), ("description", ValDef::Text("Specific test name or pattern to run"))] },
            PropDef { name: "package", members: vec![("type", ValDef::Text("string")), ("description", ValDef::Text("Specific package to test in a workspace"))] },
            PropDef { name: "no_capture", members: vec![("type", ValDef::Text("boolean")), ("description", ValDef::Text("Whether to show test output (--nocapture)")), ("default", ValDef::Bool(false))] },
            PropDef { name: "path", members: vec![("type", ValDef::Text("string")), ("description", ValDef::Text("Working directory path for cargo test (defaults to configured workspace root)"))] },
        ],
        Some(vec![]),
    )
}

fn def_check_command() -> (r: (Vec<PropDef>, Option<Vec<&'static str>>))
    ensures
        r.0@.map_values(|p: PropDef| prop_of(p)) =~~= schema_check_command().0,
        required_of(r.1) =~~= schema_check_command().1,
{
    (
        vec![
            PropDef { name: "command", members: vec![("type", ValDef::Text("string")), ("description", ValDef::Text("Name of the command to check (e.g., 'rustc', 'cargo', 'git')"))] },
        ],
        Some(vec!["command"]),
    )
}

fn def_file_stats() -> (r: (Vec<PropDef>, Option<Vec<&'static str>>))
    ensures
        r.0@.map_values(|p: PropDef| prop_of(p)) =~~= schema_file_stats().0,
        required_of(r.1) =~~= schema_file_stats().1,
{
    (
        vec![
            PropDef { name: "path", members: vec![("type", ValDef::Text("string")), ("description", ValDef::Text("Path to the file or directory to get statistics for"))] },
        ],
        Some(vec!["path"]),
    )
}

fn def_find_files() -> (r: (Vec<PropDef>, Option<Vec<&'static str>>))
    ensures
        r.0@.map_values(|p: PropDef| prop_of(p)) =~~= schema_find_files().0,
        required_of(r.1) =~~= schema_find_files().1,
{
    (
        vec![
            PropDef { name: "pattern", members: vec![("type", ValDef::Text("string")), ("description", ValDef::Text("Glob pattern to match file names (e.g., '*.rs', 'test_*.py', 'README*')"))] },
            PropDef { name: "path", members: vec![("type", ValDef::Text("string")), ("description", ValDef::Text("Base path to search in (defaults to current directory)"))] },
            PropDef { name: "max_depth", members: vec![("type", ValDef::Text("integer")), ("description", ValDef::Text("Maximum directory depth to search (unlimited if not specified)")), ("minimum", ValDef::Num(1))] },
            PropDef { name: "max_results", members: vec![("type", ValDef::Text("integer")), ("description", ValDef::Text("Maximum number of results to return (default: 1000)")), ("default", ValDef::Num(1000))] },
            PropDef { name: "include_dirs", members: vec![("type", ValDef::Text("boolean")), ("description", ValDef::Text("Whether to include directories in results (default: false)")), ("default", ValDef::Bool(false))] },
        ],
        Some(vec!["pattern"]),
    )
}

fn def_grep_file() -> (r: (Vec<PropDef>, Option<Vec<&'static str>>))
    ensures
        r.0@.map_values(|p: PropDef| prop_of(p)) =~~= schema_grep_file().0,
        required_of(r.1) =~~= schema_grep_file().1,
{
    (
        vec![
            PropDef { name: "path", members: vec![("type", ValDef::Text("string")), ("description", ValDef::Text("Path to the file to search"))] },
            PropDef { name: "pattern", members: vec![("type", ValDef::Text("string")), ("description", ValDef::Text("The text pattern to search for"))] },
            PropDef { name: "case_sensitive", members: vec![("type", ValDef::Text("boolean")), ("description", ValDef::Text("Whether the search should be case-sensitive")), ("default", ValDef::Bool(true))] },
        ],
        Some(vec!["path", "pattern"]),
    )
}

fn def_grep_project() -> (r: (Vec<PropDef>, Option<Vec<&'static str>>))
    ensures
        r.0@.map_values(|p: PropDef| prop_of(p)) =~~= schema_grep_project().0,
        required_of(r.1) =~~= schema_grep_project().1,
{
    (
        vec![
            PropDef { name: "pattern", members: vec![("type", ValDef::Text("string")), ("description", ValDef::Text("The text or regex pattern to search for"))] },
            PropDef { name: "path", members: vec![("type", ValDef::Text("string")), ("description", ValDef::Text("Base path to search in (defaults to configured workspace root)"))] },
            PropDef { name: "include_glob", members: vec![("type", ValDef::Text("string")), ("description", ValDef::Text("Glob pattern to include files (e.g., '*.rs', '*.txt')"))] },
            PropDef { name: "exclude_glob", members: vec![("type", ValDef::Text("string")), ("description", ValDef::Text("Glob pattern to exclude files (e.g., '*.log', 'target/*')"))] },
            PropDef { name: "max_results", members: vec![("type", ValDef::Text("integer")), ("description", ValDef::Text("Maximum number of matches to return (default: 1000)")), ("default", ValDef::Num(1000))] },
            PropDef { name: "case_sensitive", members: vec![("type", ValDef::Text("boolean")), ("description", ValDef::Text("Whether the search should be case-sensitive")), ("default", ValDef::Bool(true))] },
        ],
        Some(vec!["pattern"]),
    )
}

fn def_health() -> (r: (Vec<PropDef>, Option<Vec<&'static str>>))
    ensures
        r.0@.map_values(|p: PropDef| prop_of(p)) =~~= schema_health().0,
        required_of(r.1) =~~= schema_health().1,
{
    let choices: Vec<&'static str> = vec!["basic", "detailed"];
    proof {
        assert(choices@.map_values(|t: &str| t@) =~= seq!["basic"@, "detailed"@]);
    }
    (
        vec![
            PropDef { name: "detail_level", members: vec![("type", ValDef::Text("string")), ("description", ValDef::Text("Level of detail for health information")), ("enum", ValDef::Texts(choices)), ("default", ValDef::Text("basic"))] },
        ],
        None,
    )
}

fn def_json_query() -> (r: (Vec<PropDef>, Option<Vec<&'static str>>))
    ensures
        r.0@.map_values(|p: PropDef| prop_of(p)) =~~= schema_json_query().0,
        required_of(r.1) =~~= schema_json_query().1,
{
    (
        vec![
            PropDef { name: "path", members: vec![("type", ValDef::Text("string")), ("description", ValDef::Text("Path to the JSON file to read"))] },
            PropDef { name: "query", members: vec![("type", ValDef::Text("string")), ("description", ValDef::Text("Dot-separated path to query (e.g., 'package.name', 'dependencies.0.name')"))] },
        ],
        Some(vec!["path"]),
    )
}

fn def_just_run() -> (r: (Vec<PropDef>, Option<Vec<&'static str>>))
    ensures
        r.0@.map_values(|p: PropDef| prop_of(p)) =~~= schema_just_run().0,
        required_of(r.1) =~~= schema_just_run().1,
{
    (
        vec![
            PropDef { name: "recipe", members: vec![("type", ValDef::Text("string")), ("description", ValDef::Text("The just recipe to execute"))] },
            PropDef { name: "args", members: vec![("type", ValDef::Text("array")), ("items", ValDef::TypeOf("string")), ("description", ValDef::Text("Arguments to pass to the recipe"))] },
            PropDef { name: "path", members: vec![("type", ValDef::Text("string")), ("description", ValDef::Text("Working directory (defaults to current directory)"))] },
        ],
        Some(vec!["recipe"]),
    )
}

fn def_list_directory() -> (r: (Vec<PropDef>, Option<Vec<&'static str>>))
    ensures
        r.0@.map_values(|p: PropDef| prop_of(p)) =~~= schema_list_directory().0,
        required_of(r.1) =~~= schema_list_directory().1,
{
    (
        vec![
            PropDef { name: "path", members: vec![("type", ValDef::Text("string")), ("description", ValDef::Text("Path to the directory to list"))] },
            PropDef { name: "recursive", members: vec![("type", ValDef::Text("boolean")), ("description", ValDef::Text("Whether to list contents recursively")), ("default", ValDef::Bool(false))] },
            PropDef { name: "pattern", members: vec![("type", ValDef::Text("string")), ("description", ValDef::Text("Filter entries by name pattern (simple substring match)"))] },
        ],
        Some(vec!["path"]),
    )
}

fn def_markdown_query() -> (r: (Vec<PropDef>, Option<Vec<&'static str>>))
    ensures
        r.0@.map_values(|p: PropDef| prop_of(p)) =~~= schema_markdown_query().0,
        required_of(r.1) =~~= schema_markdown_query().1,
{
    let choices: Vec<&'static str> = vec!["list_headings", "get_section", "list_tables", "search_content"];
    proof {
        assert(choices@.map_values(|t: &str| t@) =~= seq!["list_headings"@, "get_section"@, "list_tables"@, "search_content"@]);
    }
    (
        vec![
            PropDef { name: "path", members: vec![("type", ValDef::Text("string")), ("description", ValDef::Text("Path to the markdown file"))] },
            PropDef { name: "action", members: vec![("type", ValDef::Text("string")), ("description", ValDef::Text("Action to perform")), ("enum", ValDef::Texts(choices))] },
            PropDef { name: "filter", members: vec![("type", ValDef::Text("string")), ("description", ValDef::Text("For get_section: heading text to find. For search_content: search term"))] },
        ],
        Some(vec!["path", "action"]),
    )
}

fn def_migration_list() -> (r: (Vec<PropDef>, Option<Vec<&'static str>>))
    ensures
        r.0@.map_values(|p: PropDef| prop_of(p)) =~~= schema_migration_list().0,
        required_of(r.1) =~~= schema_migration_list().1,
{
    (
        vec![
            PropDef { name: "migrations_dir", members: vec![("type", ValDef::Text("string")), ("description", ValDef::Text("Path to the migrations directory"))] },
        ],
        Some(vec!["migrations_dir"]),
    )
}

fn def_read_env() -> (r: (Vec<PropDef>, Option<Vec<&'static str>>))
    ensures
        r.0@.map_values(|p: PropDef| prop_of(p)) =~~= schema_read_env().0,
        required_of(r.1) =~~= schema_read_env().1,
{
    (
        vec![
            PropDef { name: "name", members: vec![("type", ValDef::Text("string")), ("description", ValDef::Text("Specific environment variable name to read"))] },
            PropDef { name: "prefix", members: vec![("type", ValDef::Text("string")), ("description", ValDef::Text("Filter variables by name prefix (e.g., 'CARGO', 'PATH')"))] },
        ],
        Some(vec![]),
    )
}

fn def_read_file() -> (r: (Vec<PropDef>, Option<Vec<&'static str>>))
    ensures
        r.0@.map_values(|p: PropDef| prop_of(p)) =~~= schema_read_file().0,
        required_of(r.1) =~~= schema_read_file().1,
{
    (
        vec![
            PropDef { name: "path", members: vec![("type", ValDef::Text("string")), ("description", ValDef::Text("Path to the file to read"))] },
            PropDef { name: "start_line", members: vec![("type", ValDef::Text("integer")), ("description", ValDef::Text("Starting line number (1-indexed, inclusive)")), ("minimum", ValDef::Num(1))] },
            PropDef { name: "end_line", members: vec![("type", ValDef::Text("integer")), ("description", ValDef::Text("Ending line number (1-indexed, inclusive)")), ("minimum", ValDef::Num(1))] },
        ],
        Some(vec!["path"]),
    )
}

fn def_read_toml() -> (r: (Vec<PropDef>, Option<Vec<&'static str>>))
    ensures
        r.0@.map_values(|p: PropDef| prop_of(p)) =~~= schema_read_toml().0,
        required_of(r.1) =~~= schema_read_toml().1,
{
    (
        vec![
            PropDef { name: "path", members: vec![("type", ValDef::Text("string")), ("description", ValDef::Text("Path to the TOML file to read"))] },
            PropDef { name: "query", members: vec![("type", ValDef::Text("string")), ("description", ValDef::Text("Dot-separated path to query (e.g., 'package.name', 'dependencies')"))] },
        ],
        Some(vec!["path"]),
    )
}

fn def_say_hello() -> (r: (Vec<PropDef>, Option<Vec<&'static str>>))
    ensures
        r.0@.map_values(|p: PropDef| prop_of(p)) =~~= schema_say_hello().0,
        required_of(r.1) =~~= schema_say_hello().1,
{
    (
        vec![
            PropDef { name: "name", members: vec![("type", ValDef::Text("string"))] },
        ],
        Some(vec!["name"]),
    )
}

fn def_sqlite_query() -> (r: (Vec<PropDef>, Option<Vec<&'static str>>))
    ensures
        r.0@.map_values(|p: PropDef| prop_of(p)) =~~= schema_sqlite_query().0,
        required_of(r.1) =~~= schema_sqlite_query().1,
{
    (
        vec![
            PropDef { name: "db_path", members: vec![("type", ValDef::Text("string")), ("description", ValDef::Text("Path to the SQLite database file"))] },
            PropDef { name: "query", members: vec![("type", ValDef::Text("string")), ("description", ValDef::Text("SQL query to execute (SELECT, PRAGMA, EXPLAIN, or WITH only)"))] },
            PropDef { name: "params", members: vec![("type", ValDef::Text("array")), ("items", ValDef::Empty), ("description", ValDef::Text("Query parameters for prepared statements"))] },
            PropDef { name: "max_rows", members: vec![("type", ValDef::Text("integer")), ("description", ValDef::Text("Maximum rows to return (default: 500)")), ("default", ValDef::Num(500))] },
        ],
        Some(vec!["db_path", "query"]),
    )
}

fn def_sqlite_schema() -> (r: (Vec<PropDef>, Option<Vec<&'static str>>))
    ensures
        r.0@.map_values(|p: PropDef| prop_of(p)) =~~= schema_sqlite_schema().0,
        required_of(r.1) =~~= schema_sqlite_schema().1,
{
    (
        vec![
            PropDef { name: "db_path", members: vec![("type", ValDef::Text("string")), ("description", ValDef::Text("Path to the SQLite database file"))] },
            PropDef { name: "table", members: vec![("type", ValDef::Text("string")), ("description", ValDef::Text("Specific table to inspect (omit for all tables)"))] },
        ],
        Some(vec!["db_path"]),
    )
}

fn def_system_info() -> (r: (Vec<PropDef>, Option<Vec<&'static str>>))
    ensures
        r.0@.map_values(|p: PropDef| prop_of(p)) =~~= schema_system_info().0,
        required_of(r.1) =~~= schema_system_info().1,
{
    (
        vec![
            ],
        Some(vec![]),
    )
}

fn def_workspace_info() -> (r: (Vec<PropDef>, Option<Vec<&'static str>>))
    ensures
        r.0@.map_values(|p: PropDef| prop_of(p)) =~~= schema_workspace_info().0,
        required_of(r.1) =~~= schema_workspace_info().1,
{
    (
        vec![
            PropDef { name: "path", members: vec![("type", ValDef::Text("string")), ("description", ValDef::Text("Path to the workspace root (defaults to current directory)"))] },
            PropDef { name: "crate_name", members: vec![("type", ValDef::Text("string")), ("description", ValDef::Text("Filter to a specific crate by name"))] },
        ],
        None,
    )
}

/// The schema of `name` as data.
fn schema_def(name: &str) -> (r: (Vec<PropDef>, Option<Vec<&'static str>>))
    ensures
        r.0@.map_values(|p: PropDef| prop_of(p)) =~~= tool_schema(name@).0,
        required_of(r.1) =~~= tool_schema(name@).1,
{
    if eq_str(name, "cargo_build") {
        proof {
            reveal_strlit("cargo_build");
        }
        def_cargo_build()
    } else if eq_str(name, "cargo_check") {
        proof {
            reveal_strlit("cargo_build");
            reveal_strlit("cargo_check");
        }
        def_cargo_check()
    } else if eq_str(name, "cargo_test") {
        proof {
            reveal_strlit("cargo_build");
            reveal_strlit("cargo_check");
            reveal_strlit("cargo_test");
        }
        def_cargo_test()
    } else if eq_str(name, "check_command") {
        proof {
            reveal_strlit("cargo_build");
            reveal_strlit("cargo_check");
            reveal_strlit("cargo_test");
            reveal_strlit("check_command");
        }
        def_check_command()
    } else if eq_str(name, "file_stats") {
        proof {
            reveal_strlit("cargo_build");
            reveal_strlit("cargo_check");
            reveal_strlit("cargo_test");
            reveal_strlit("check_command");
            reveal_strlit("file_stats");
        }
        def_file_stats()
    } else if eq_str(name, "find_files") {
        proof {
            reveal_strlit("cargo_build");
            reveal_strlit("cargo_check");
            reveal_strlit("cargo_test");
            reveal_strlit("check_command");
            reveal_strlit("file_stats");
            reveal_strlit("find_files");
        }
        def_find_files()
    } else if eq_str(name, "grep_file") {
        proof {
            reveal_strlit("cargo_build");
            reveal_strlit("cargo_check");
            reveal_strlit("cargo_test");
            reveal_strlit("check_command");
            reveal_strlit("file_stats");
            reveal_strlit("find_files");
            reveal_strlit("grep_file");
        }
        def_grep_file()
    } else if eq_str(name, "grep_project") {
        proof {
            reveal_strlit("cargo_build");
            reveal_strlit("cargo_check");
            reveal_strlit("cargo_test");
            reveal_strlit("check_command");
            reveal_strlit("file_stats");
            reveal_strlit("find_files");
            reveal_strlit("grep_file");
            reveal_strlit("grep_project");
        }
        def_grep_project()
    } else if eq_str(name, "health") {
        proof {
            reveal_strlit("cargo_build");
            reveal_strlit("cargo_check");
            reveal_strlit("cargo_test");
            reveal_strlit("check_command");
            reveal_strlit("file_stats");
            reveal_strlit("find_files");
            reveal_strlit("grep_file");
            reveal_strlit("grep_project");
            reveal_strlit("health");
        }
        def_health()
    } else if eq_str(name, "json_query") {
        proof {
            reveal_strlit("cargo_build");
            reveal_strlit("cargo_check");
            reveal_strlit("cargo_test");
            reveal_strlit("check_command");
            reveal_strlit("file_stats");
            reveal_strlit("find_files");
            reveal_strlit("grep_file");
            reveal_strlit("grep_project");
            reveal_strlit("health");
            reveal_strlit("json_query");
        }
        def_json_query()
    } else if eq_str(name, "just_run") {
        proof {
            reveal_strlit("cargo_build");
            reveal_strlit("cargo_check");
            reveal_strlit("cargo_test");
            reveal_strlit("check_command");
            reveal_strlit("file_stats");
            reveal_strlit("find_files");
            reveal_strlit("grep_file");
            reveal_strlit("grep_project");
            reveal_strlit("health");
            reveal_strlit("json_query");
            reveal_strlit("just_run");
        }
        def_just_run()
    } else if eq_str(name, "list_directory") {
        proof {
            reveal_strlit("cargo_build");
            reveal_strlit("cargo_check");
            reveal_strlit("cargo_test");
            reveal_strlit("check_command");
            reveal_strlit("file_stats");
            reveal_strlit("find_files");
            reveal_strlit("grep_file");
            reveal_strlit("grep_project");
            reveal_strlit("health");
            reveal_strlit("json_query");
            reveal_strlit("just_run");
            reveal_strlit("list_directory");
        }
        def_list_directory()
    } else if eq_str(name, "markdown_query") {
        proof {
            reveal_strlit("cargo_build");
            reveal_strlit("cargo_check");
            reveal_strlit("cargo_test");
            reveal_strlit("check_command");
            reveal_strlit("file_stats");
            reveal_strlit("find_files");
            reveal_strlit("grep_file");
            reveal_strlit("grep_project");
            reveal_strlit("health");
            reveal_strlit("json_query");
            reveal_strlit("just_run");
            reveal_strlit("list_directory");
            reveal_strlit("markdown_query");
        }
        def_markdown_query()
    } else if eq_str(name, "migration_list") {
        proof {
            reveal_strlit("cargo_build");
            reveal_strlit("cargo_check");
            reveal_strlit("cargo_test");
            reveal_strlit("check_command");
            reveal_strlit("file_stats");
            reveal_strlit("find_files");
            reveal_strlit("grep_file");
            reveal_strlit("grep_project");
            reveal_strlit("health");
            reveal_strlit("json_query");
            reveal_strlit("just_run");
            reveal_strlit("list_directory");
            reveal_strlit("markdown_query");
            reveal_strlit("migration_list");
        }
        def_migration_list()
    } else if eq_str(name, "read_env") {
        proof {
            reveal_strlit("cargo_build");
            reveal_strlit("cargo_check");
            reveal_strlit("cargo_test");
            reveal_strlit("check_command");
            reveal_strlit("file_stats");
            reveal_strlit("find_files");
            reveal_strlit("grep_file");
            reveal_strlit("grep_project");
            reveal_strlit("health");
            reveal_strlit("json_query");
            reveal_strlit("just_run");
            reveal_strlit("list_directory");
            reveal_strlit("markdown_query");
            reveal_strlit("migration_list");
            reveal_strlit("read_env");
        }
        def_read_env()
    } else if eq_str(name, "read_file") {
        proof {
            reveal_strlit("cargo_build");
            reveal_strlit("cargo_check");
            reveal_strlit("cargo_test");
            reveal_strlit("check_command");
            reveal_strlit("file_stats");
            reveal_strlit("find_files");
            reveal_strlit("grep_file");
            reveal_strlit("grep_project");
            reveal_strlit("health");
            reveal_strlit("json_query");
            reveal_strlit("just_run");
            reveal_strlit("list_directory");
            reveal_strlit("markdown_query");
            reveal_strlit("migration_list");
            reveal_strlit("read_env");
            reveal_strlit("read_file");
        }
        def_read_file()
    } else if eq_str(name, "read_toml") {
        proof {
            reveal_strlit("cargo_build");
            reveal_strlit("cargo_check");
            reveal_strlit("cargo_test");
            reveal_strlit("check_command");
            reveal_strlit("file_stats");
            reveal_strlit("find_files");
            reveal_strlit("grep_file");
            reveal_strlit("grep_project");
            reveal_strlit("health");
            reveal_strlit("json_query");
            reveal_strlit("just_run");
            reveal_strlit("list_directory");
            reveal_strlit("markdown_query");
            reveal_strlit("migration_list");
            reveal_strlit("read_env");
            reveal_strlit("read_file");
            reveal_strlit("read_toml");
        }
        def_read_toml()
    } else if eq_str(name, "say_hello") {
        proof {
            reveal_strlit("cargo_build");
            reveal_strlit("cargo_check");
            reveal_strlit("cargo_test");
            reveal_strlit("check_command");
            reveal_strlit("file_stats");
            reveal_strlit("find_files");
            reveal_strlit("grep_file");
            reveal_strlit("grep_project");
            reveal_strlit("health");
            reveal_strlit("json_query");
            reveal_strlit("just_run");
            reveal_strlit("list_directory");
            reveal_strlit("markdown_query");
            reveal_strlit("migration_list");
            reveal_strlit("read_env");
            reveal_strlit("read_file");
            reveal_strlit("read_toml");
            reveal_strlit("say_hello");
        }
        def_say_hello()
    } else if eq_str(name, "sqlite_query") {
        proof {
            reveal_strlit("cargo_build");
            reveal_strlit("cargo_check");
            reveal_strlit("cargo_test");
            reveal_strlit("check_command");
            reveal_strlit("file_stats");
            reveal_strlit("find_files");
            reveal_strlit("grep_file");
            reveal_strlit("grep_project");
            reveal_strlit("health");
            reveal_strlit("json_query");
            reveal_strlit("just_run");
            reveal_strlit("list_directory");
            reveal_strlit("markdown_query");
            reveal_strlit("migration_list");
            reveal_strlit("read_env");
            reveal_strlit("read_file");
            reveal_strlit("read_toml");
            reveal_strlit("say_hello");
            reveal_strlit("sqlite_query");
        }
        def_sqlite_query()
    } else if eq_str(name, "sqlite_schema") {
        proof {
            reveal_strlit("cargo_build");
            reveal_strlit("cargo_check");
            reveal_strlit("cargo_test");
            reveal_strlit("check_command");
            reveal_strlit("file_stats");
            reveal_strlit("find_files");
            reveal_strlit("grep_file");
            reveal_strlit("grep_project");
            reveal_strlit("health");
            reveal_strlit("json_query");
            reveal_strlit("just_run");
            reveal_strlit("list_directory");
            reveal_strlit("markdown_query");
            reveal_strlit("migration_list");
            reveal_strlit("read_env");
            reveal_strlit("read_file");
            reveal_strlit("read_toml");
            reveal_strlit("say_hello");
            reveal_strlit("sqlite_query");
            reveal_strlit("sqlite_schema");
        }
        def_sqlite_schema()
    } else if eq_str(name, "system_info") {
        proof {
            reveal_strlit("cargo_build");
            reveal_strlit("cargo_check");
            reveal_strlit("cargo_test");
            reveal_strlit("check_command");
            reveal_strlit("file_stats");
            reveal_strlit("find_files");
            reveal_strlit("grep_file");
            reveal_strlit("grep_project");
            reveal_strlit("health");
            reveal_strlit("json_query");
            reveal_strlit("just_run");
            reveal_strlit("list_directory");
            reveal_strlit("markdown_query");
            reveal_strlit("migration_list");
            reveal_strlit("read_env");
            reveal_strlit("read_file");
            reveal_strlit("read_toml");
            reveal_strlit("say_hello");
            reveal_strlit("sqlite_query");
            reveal_strlit("sqlite_schema");
            reveal_strlit("system_info");
        }
        def_system_info()
    } else if eq_str(name, "workspace_info") {
        proof {
            reveal_strlit("cargo_build");
            reveal_strlit("cargo_check");
            reveal_strlit("cargo_test");
            reveal_strlit("check_command");
            reveal_strlit("file_stats");
            reveal_strlit("find_files");
            reveal_strlit("grep_file");
            reveal_strlit("grep_project");
            reveal_strlit("health");
            reveal_strlit("json_query");
            reveal_strlit("just_run");
            reveal_strlit("list_directory");
            reveal_strlit("markdown_query");
            reveal_strlit("migration_list");
            reveal_strlit("read_env");
            reveal_strlit("read_file");
            reveal_strlit("read_toml");
            reveal_strlit("say_hello");
            reveal_strlit("sqlite_query");
            reveal_strlit("sqlite_schema");
            reveal_strlit("system_info");
            reveal_strlit("workspace_info");
        }
        def_workspace_info()
    } else {
        (Vec::new(), Some(Vec::new()))
    }
}

fn val_json_of(v: &ValDef) -> (j: Json)
    ensures
        val_json(j, val_of(*v)),
{
    match v {
        ValDef::Bool(b) => Json::Bool(*b),
        ValDef::Num(n) => num_u64(*n),
        ValDef::Text(t) => Json::Str(string_from(t)),
        ValDef::Texts(ts) => {
            let mut a: Vec<Json> = Vec::new();
            let mut i: usize = 0;
            while i < ts.len()
                invariant
                    i <= ts@.len(),
                    a@.len() == i,
                    forall|k: int| 0 <= k < i ==> is_str(#[trigger] a@[k], ts@[k]@),
                decreases ts@.len() - i,
            {
                a.push(Json::Str(string_from(ts[i])));
                i = i + 1;
            }
            Json::Array(a)
        },
        ValDef::TypeOf(t) => {
            let mut es: Vec<(String, Json)> = Vec::new();
            es.push((string_from("type"), Json::Str(string_from(t))));
            Json::Object(es)
        },
        ValDef::Empty => Json::Object(Vec::new()),
    }
}

fn members_json_of(p: &PropDef) -> (d: Json)
    ensures
        members_json(d, prop_of(*p).1),
{
    let mut m: Vec<(String, Json)> = Vec::new();
    let mut k: usize = 0;
    while k < p.members.len()
        invariant
            k <= p.members@.len(),
            m@.len() == k,
            forall|q: int|
                0 <= q < k ==> (#[trigger] m@[q]).0@ == p.members@[q].0@ && val_json(m@[q].1, val_of(p.members@[q].1)),
        decreases p.members@.len() - k,
    {
        let v = val_json_of(&p.members[k].1);
        m.push((string_from(p.members[k].0), v));
        k = k + 1;
    }
    Json::Object(m)
}

/// The input schema of the tool `name`; a name without one gets an empty
/// object schema.
pub fn input_schema(name: &str) -> (s: Json)
    ensures
        schema_json(s, tool_schema(name@).0, tool_schema(name@).1),
{
    let (props, required) = schema_def(name);
    let ghost pv = props@.map_values(|p: PropDef| prop_of(p));
    let mut ps: Vec<(String, Json)> = Vec::new();
    let mut i: usize = 0;
    while i < props.len()
        invariant
            i <= props@.len(),
            pv == props@.map_values(|p: PropDef| prop_of(p)),
            ps@.len() == i,
            forall|q: int| 0 <= q < i ==> (#[trigger] ps@[q]).0@ == pv[q].0 && members_json(ps@[q].1, pv[q].1),
        decreases props@.len() - i,
    {
        let d = members_json_of(&props[i]);
        ps.push((string_from(props[i].name), d));
        i = i + 1;
    }
    let mut es: Vec<(String, Json)> = Vec::new();
    es.push((string_from("type"), Json::Str(string_from("object"))));
    es.push((string_from("properties"), Json::Object(ps)));
    if let Some(r) = required {
        let mut rs: Vec<Json> = Vec::new();
        let mut j: usize = 0;
        while j < r.len()
            invariant
                j <= r@.len(),
                rs@.len() == j,
                forall|q: int| 0 <= q < j ==> is_str(#[trigger] rs@[q], r@[q]@),
            decreases r@.len() - j,
        {
            rs.push(Json::Str(string_from(r[j])));
            j = j + 1;
        }
        es.push((string_from("required"), Json::Array(rs)));
    }
    Json::Object(es)
}

} // verus!
