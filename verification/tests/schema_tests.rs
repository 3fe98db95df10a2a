use mcp_rag::json::Json;
use mcp_rag::tools::schemas::input_schema;

fn required(tool: &str) -> Vec<String> {
    match input_schema(tool).get("required") {
        Some(Json::Array(items)) => items
            .iter()
            .map(|j| match j {
                Json::Str(s) => s.clone(),
                other => panic!("not a string: {:?}", other),
            })
            .collect(),
        other => panic!("no required list: {:?}", other),
    }
}

fn property_type(tool: &str, prop: &str) -> Option<String> {
    let s = input_schema(tool);
    match s.get("properties") {
        Some(ps) => match ps.get(prop) {
            Some(p) if p.is_object() => Some(p.get_str("type").unwrap_or_default()),
            _ => None,
        },
        None => None,
    }
}

#[test]
fn cargo_build_test_schema_has_empty_required() {
    assert!(required("cargo_build").is_empty());
}

#[test]
fn test_schema_has_release_property() {
    assert_eq!(property_type("cargo_build", "release"), Some("boolean".to_string()));
}

#[test]
fn cargo_check_test_schema_has_empty_required() {
    assert!(required("cargo_check").is_empty());
}

#[test]
fn cargo_test_test_schema_has_empty_required() {
    assert!(required("cargo_test").is_empty());
}

#[test]
fn test_schema_has_required_command() {
    assert_eq!(required("check_command")[0], "command");
}

#[test]
fn file_read_test_schema_has_required_path() {
    assert_eq!(required("read_file")[0], "path");
}

#[test]
fn file_stats_test_schema_has_required_path() {
    assert_eq!(required("file_stats")[0], "path");
}

#[test]
fn find_files_test_schema_has_required_pattern() {
    assert_eq!(required("find_files")[0], "pattern");
}

#[test]
fn test_schema_has_required_fields() {
    let r = required("grep_file");
    assert!(r.contains(&"path".to_string()));
    assert!(r.contains(&"pattern".to_string()));
}

#[test]
fn grep_project_test_schema_has_required_pattern() {
    assert_eq!(required("grep_project")[0], "pattern");
}

#[test]
fn test_schema_validation() {
    let s = input_schema("health");
    assert!(s.is_object());
    assert!(s.get("properties").map(|p| p.is_object()).unwrap_or(false));
    assert!(property_type("health", "detail_level").is_some());
}

#[test]
fn test_schema_has_required_name() {
    assert_eq!(required("say_hello")[0], "name");
}

#[test]
fn json_query_test_schema_has_required_path() {
    assert_eq!(required("json_query")[0], "path");
}

#[test]
fn just_run_test_schema_has_required() {
    assert_eq!(required("just_run")[0], "recipe");
}

#[test]
fn list_dir_test_schema_has_required_path() {
    assert_eq!(required("list_directory")[0], "path");
}

#[test]
fn markdown_query_test_schema_has_required() {
    let r = required("markdown_query");
    assert!(r.contains(&"path".to_string()));
    assert!(r.contains(&"action".to_string()));
}

#[test]
fn migration_list_test_schema_has_required() {
    assert_eq!(required("migration_list")[0], "migrations_dir");
}

#[test]
fn read_env_test_schema_has_empty_required() {
    assert!(required("read_env").is_empty());
}

#[test]
fn read_toml_test_schema_has_required_path() {
    assert_eq!(required("read_toml")[0], "path");
}

#[test]
fn sqlite_query_test_schema_has_required() {
    let r = required("sqlite_query");
    assert!(r.contains(&"db_path".to_string()));
    assert!(r.contains(&"query".to_string()));
}

#[test]
fn sqlite_schema_test_schema_has_required() {
    assert_eq!(required("sqlite_schema")[0], "db_path");
}

#[test]
fn system_info_test_schema_has_empty_required() {
    assert!(required("system_info").is_empty());
}

#[test]
fn test_schema() {
    assert!(property_type("workspace_info", "path").is_some());
    assert!(property_type("workspace_info", "crate_name").is_some());
}

#[test]
fn schema_values_beyond_type_and_description() {
    let s = input_schema("health");
    let p = s.get("properties").and_then(|ps| ps.get("detail_level")).unwrap();
    assert_eq!(p.get_str("default"), Some("basic".to_string()));
    match p.get("enum") {
        Some(Json::Array(v)) => assert_eq!(v.len(), 2),
        other => panic!("no enum: {:?}", other),
    }
    let f = input_schema("find_files");
    let mr = f.get("properties").and_then(|ps| ps.get("max_results")).unwrap();
    assert!(matches!(mr.get("default"), Some(Json::Number(n)) if n == "1000"));
    let unknown = input_schema("nothing");
    assert!(required("nothing").is_empty());
    assert!(matches!(unknown.get("properties"), Some(Json::Object(ps)) if ps.is_empty()));
    assert!(input_schema("workspace_info").get("required").is_none());
}
