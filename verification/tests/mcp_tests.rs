use mcp_rag::mcp::config::initialize_workspace;
use mcp_rag::json::Json;
use mcp_rag::mcp::config::{config_candidates, expand_home, load_config, Config};
use mcp_rag::mcp::error::McpError;
use mcp_rag::mcp::policy::{PathCheck, Policy};
use mcp_rag::mcp::resource::{
    command_words, file_missing, file_source, glob_source, guess_mime, read_result, sorted_lines, ResourceConfig,
    ResourceRegistry, ResourceType,
};
use mcp_rag::mcp::server::{content_length, find_header_end, http_head, method_of, route, Method, Route};
use mcp_rag::mcp::validation::{create_error_response, validate_jsonrpc_request, validate_tool_call_params};
use mcp_rag::mcp::workspace::resolve_path;

fn obj(entries: Vec<(&str, Json)>) -> Json {
    Json::Object(entries.into_iter().map(|(k, v)| (k.to_string(), v)).collect())
}

fn s(v: &str) -> Json {
    Json::Str(v.to_string())
}

#[test]
fn test_default_config() {
    let config = Config::default();
    assert!(config.validate().is_ok());
    assert_eq!(config.server.name, "mcp-rs");
    assert_eq!(config.policy.mode, "default");
    assert!(config.audit.enabled);
}

#[test]
fn test_invalid_config_validation() {
    let mut config = Config::default();
    config.policy.mode = "invalid_mode".to_string();
    assert!(config.validate().is_err());

    config.policy.mode = "default".to_string();
    config.logging.level = "invalid_level".to_string();
    assert!(config.validate().is_err());

    config.logging.level = "info".to_string();
    config.policy.max_file_size_mb = 0;
    assert!(config.validate().is_err());
}

#[test]
fn test_policy_conversion() {
    let config = Config::default();
    let policy = config.to_policy();
    assert_eq!(policy.max_file_size, config.policy.max_file_size_mb * 1024 * 1024);
    assert_eq!(policy.allow_env_access, config.policy.allow_env_access);
}

#[test]
fn test_audit_config_conversion() {
    let config = Config::default();
    let audit_config = config.to_audit_config();
    assert_eq!(audit_config.enabled, config.audit.enabled);
    assert_eq!(audit_config.max_file_size, config.audit.max_file_size_mb * 1024 * 1024);
}

#[test]
fn test_tracing_filter() {
    let mut config = Config::default();
    config.logging.level = "debug".to_string();
    assert_eq!(config.get_tracing_filter(), "mcp_rs=debug");
}

#[test]
fn test_permissive_policy() {
    let mut config = Config::default();
    config.policy.mode = "permissive".to_string();
    config.policy.allowed_paths = vec!["/".to_string()];
    config.policy.denied_paths = vec![];
    let policy = config.to_policy();
    assert_eq!(policy.allowed_paths, vec!["/".to_string()]);
    assert!(policy.denied_paths.is_empty());
}

#[test]
fn config_test_restrictive_policy() {
    let mut config = Config::default();
    config.policy.mode = "restrictive".to_string();
    config.policy.allowed_paths = vec![".".to_string()];
    let policy = config.to_policy();
    assert_eq!(policy.allowed_paths, vec![".".to_string()]);
    assert!(!policy.denied_paths.is_empty());
}

#[test]
fn invalid_transport_is_reported() {
    let mut config = Config::default();
    config.server.transport = Some("carrier-pigeon".to_string());
    match config.validate() {
        Err(e) => assert_eq!(
            e.message(),
            "Configuration error: Invalid transport 'carrier-pigeon'. Must be 'stdio' or 'http'"
        ),
        Ok(()) => panic!("expected an error"),
    }
}

#[test]
fn test_error_codes() {
    assert_eq!(McpError::tool_not_found("test").error_code(), -32601);
    assert_eq!(McpError::invalid_arguments("test", "bad args").error_code(), -32602);
    assert_eq!(McpError::policy_denied("access denied").error_code(), -32000);
}

#[test]
fn test_validation_valid_request() {
    let request = obj(vec![("jsonrpc", s("2.0")), ("method", s("tools/call")), ("id", Json::Number("1".to_string()))]);
    assert!(validate_jsonrpc_request(&request).is_ok());
}

#[test]
fn test_validation_missing_fields() {
    let request = obj(vec![("jsonrpc", s("2.0")), ("id", Json::Number("1".to_string()))]);
    assert!(validate_jsonrpc_request(&request).is_err());
    let not_object = Json::Array(vec![]);
    match validate_jsonrpc_request(&not_object) {
        Err(McpError::JsonRpcError { details }) => assert_eq!(details, "Request must be a JSON object"),
        _ => panic!("expected a JSON-RPC error"),
    }
    let bad_version = obj(vec![("jsonrpc", s("1.0")), ("method", s("x")), ("id", Json::Null)]);
    match validate_jsonrpc_request(&bad_version) {
        Err(McpError::JsonRpcError { details }) => {
            assert_eq!(details, "Invalid 'jsonrpc' version, must be '2.0'")
        }
        _ => panic!("expected a JSON-RPC error"),
    }
}

#[test]
fn test_tool_call_validation() {
    let params = obj(vec![("name", s("say_hello")), ("arguments", obj(vec![("name", s("World"))]))]);
    let (name, args) = validate_tool_call_params(&params).unwrap();
    assert_eq!(name, "say_hello");
    assert!(args.get_str("name") == Some("World".to_string()));

    let missing = obj(vec![("arguments", obj(vec![]))]);
    assert!(validate_tool_call_params(&missing).is_err());

    let no_args = obj(vec![("name", s("health"))]);
    let (_, args) = validate_tool_call_params(&no_args).unwrap();
    assert!(matches!(args, Json::Null));
}

#[test]
fn error_response_carries_code_and_message() {
    let r = create_error_response(Json::Number("7".to_string()), &McpError::tool_not_found("nope"));
    match r {
        Json::Object(es) => {
            assert_eq!(es[0].0, "jsonrpc");
            match &es[2].1 {
                Json::Object(er) => {
                    assert!(matches!(&er[0].1, Json::Number(c) if c == "-32601"));
                    assert!(matches!(&er[1].1, Json::Str(m) if m == "Tool not found: nope"));
                }
                _ => panic!("error member is an object"),
            }
        }
        _ => panic!("response is an object"),
    }
}

#[test]
fn test_guess_mime() {
    assert_eq!(guess_mime("test.json"), "application/json");
    assert_eq!(guess_mime("test.md"), "text/markdown");
    assert_eq!(guess_mime("test.rs"), "text/x-rust");
    assert_eq!(guess_mime("test.toml"), "application/toml");
    assert_eq!(guess_mime("test.unknown"), "text/plain");
}

#[test]
fn guess_mime_edge_cases() {
    assert_eq!(guess_mime(".bashrc"), "text/plain");
    assert_eq!(guess_mime("dir/archive.tar.yml"), "application/yaml");
    assert_eq!(guess_mime("src/app.tsx"), "text/typescript");
    assert_eq!(guess_mime("noext"), "text/plain");
}

#[test]
fn test_default_policy() {
    let policy = Policy::default();
    assert!(policy.allow_env_access);
    assert!(policy.allow_cargo_operations);
    assert!(!policy.allowed_paths.is_empty());
    assert!(!policy.denied_paths.is_empty());
}

#[test]
fn default_policy_enables_every_tool() {
    let policy = Policy::new();
    assert!(policy.is_tool_enabled("read_file"));
    assert_eq!(policy.max_file_size, 10 * 1024 * 1024);
}

#[test]
fn policy_test_restrictive_policy() {
    let policy = Policy::restrictive();
    assert!(!policy.allow_env_access);
    assert_eq!(policy.allowed_paths.len(), 1);
    assert_eq!(policy.max_file_size, 1024 * 1024);
}

#[test]
fn test_tool_permissions() {
    let mut policy = Policy::new();
    policy.allow_env_access = false;
    let args = obj(vec![]);
    assert!(policy.check_request("read_env", &args).is_err());
    assert!(Policy::new().check_request("read_env", &args).is_ok());
}

#[test]
fn test_command_allowlist() {
    let policy = Policy::new();
    let ok = obj(vec![("command", s("cargo"))]);
    assert!(policy.check_request("check_command", &ok).is_ok());
    let bad = obj(vec![("command", s("rm"))]);
    assert!(policy.check_request("check_command", &bad).is_err());
}

#[test]
fn test_disabled_tool_is_denied_and_hidden() {
    let mut policy = Policy::new();
    policy.disabled_tools = vec!["read_env".to_string()];
    assert!(!policy.can_list_tool("read_env"));
    let args = obj(vec![]);
    match policy.check_request("read_env", &args) {
        Err(McpError::PolicyDenied { reason }) => assert_eq!(reason, "Tool 'read_env' is disabled by policy"),
        _ => panic!("expected a policy denial"),
    }
}

#[test]
fn test_enabled_tools_allowlist() {
    let mut policy = Policy::new();
    policy.enabled_tools = vec!["health".to_string()];
    assert!(policy.can_list_tool("health"));
    assert!(!policy.can_list_tool("read_file"));
}

#[test]
fn test_read_only_blocks_execution_tools() {
    let mut policy = Policy::new();
    policy.read_only = true;
    let args = obj(vec![]);
    assert!(policy.check_request("cargo_build", &args).is_err());
    assert!(policy.check_request("health", &args).is_ok());
    assert!(!policy.can_list_tool("cargo_build"));
}

#[test]
fn file_access_needs_path_argument() {
    let policy = Policy::new();
    let args = obj(vec![("path", s("src/lib.rs"))]);
    match policy.check_request("read_file", &args) {
        Ok(checks) => {
            assert_eq!(checks.len(), 1);
            assert!(matches!(&checks[0], PathCheck::Given { path, limit_size: true } if path == "src/lib.rs"));
        }
        Err(_) => panic!("expected path checks"),
    }
    assert!(policy.check_request("read_file", &obj(vec![])).is_err());
}

#[test]
fn test_path_traversal_protection() {
    let policy = Policy::new();
    let denied = vec!["/etc".to_string(), "/System".to_string(), "/usr/bin".to_string(), "/usr/sbin".to_string(),
        "/sbin".to_string(), "/bin".to_string(), "/boot".to_string(), "/root".to_string()];
    let allowed = vec!["/work".to_string(), "/tmp".to_string(), "/var/tmp".to_string()];
    assert_eq!(denied.len(), policy.denied_paths.len());
    assert_eq!(allowed.len(), policy.allowed_paths.len());
    assert!(!policy.is_path_allowed("/etc/passwd", &denied, &allowed));
    assert!(policy.is_path_allowed("/tmp/x", &denied, &allowed));
    assert!(!policy.is_path_allowed("/home/other", &denied, &allowed));
    match policy.validate_path("/etc/passwd", &denied, &allowed) {
        Err(McpError::SecurityViolation { details }) => assert_eq!(
            details,
            "Access denied to path: /etc/passwd (matches denied pattern: /etc)"
        ),
        _ => panic!("expected a security violation"),
    }
    let everything = vec!["/".to_string(), "/tmp".to_string(), "/var/tmp".to_string()];
    assert!(policy.is_path_allowed("/etcetera", &denied, &everything));
}

#[test]
fn test_file_size_limit() {
    let mut policy = Policy::new();
    policy.set_max_file_size(100);
    assert!(policy.check_file_size(100).is_ok());
    match policy.check_file_size(101) {
        Err(McpError::PolicyDenied { reason }) => {
            assert_eq!(reason, "File size (101 bytes) exceeds limit (100 bytes)")
        }
        _ => panic!("expected a denial"),
    }
}

#[test]
fn resolve_path_joins_relative_paths() {
    assert_eq!(resolve_path("/work", "src/lib.rs"), "/work/src/lib.rs");
    assert_eq!(resolve_path("/work/", "a"), "/work/a");
    assert_eq!(resolve_path("/work", "/etc/hosts"), "/etc/hosts");
}

#[test]
fn test_absolute_path_stays_absolute() {
    assert_eq!(resolve_path("/anywhere", "/tmp/example"), "/tmp/example");
}

#[test]
fn home_expansion_and_candidates() {
    assert_eq!(expand_home("~/x.toml", Some("/home/u")), "/home/u/x.toml");
    assert_eq!(expand_home("~", Some("/home/u")), "/home/u/");
    assert_eq!(expand_home("~/x", None), "~/x");
    assert_eq!(expand_home("plain", Some("/home/u")), "plain");
    let c = config_candidates(Some("given.toml"), None, Some("/h"));
    assert_eq!(c, vec!["given.toml", "mcp-rs.toml", ".mcp-rs.toml", "config/mcp-rs.toml", "/h/.config/mcp-rs/config.toml", "/etc/mcp-rs/config.toml"]);
}

#[test]
fn load_config_takes_first_loaded() {
    let mut second = Config::default();
    second.server.name = "second".to_string();
    let c = load_config(vec![None, Some(second), Some(Config::default())]);
    assert_eq!(c.server.name, "second");
    let d = load_config(vec![None, None]);
    assert_eq!(d.server.name, "mcp-rs");
}

#[test]
fn http_framing() {
    assert_eq!(find_header_end(b"GET / HTTP/1.1\r\nHost: x\r\n\r\nbody"), Some(23));
    assert_eq!(find_header_end(b"partial\r\n"), None);
    assert_eq!(content_length("POST /mcp HTTP/1.1\r\nHost: a\r\ncontent-LENGTH:  42 \r\n"), 42);
    assert_eq!(content_length("POST /mcp HTTP/1.1\r\nContent-Length: x\r\n"), 0);
    assert_eq!(route("GET", "/health"), Route::Health);
    assert_eq!(route("POST", "/mcp"), Route::Mcp);
    assert_eq!(route("GET", "/mcp"), Route::NotFound);
    assert_eq!(http_head(404, "text/plain", 9), "HTTP/1.1 404 Not Found\r\nContent-Type: text/plain\r\nContent-Length: 9\r\nConnection: close\r\n\r\n");
    assert_eq!(method_of("tools/call"), Method::ToolsCall);
    assert_eq!(method_of("bogus"), Method::Unknown);
}

fn resource(uri: &str, kind: ResourceType) -> ResourceConfig {
    ResourceConfig {
        uri: uri.to_string(),
        name: "Test".to_string(),
        description: None,
        resource_type: kind,
        path: None,
        pattern: None,
        command: None,
        mime_type: None,
    }
}

#[test]
fn test_list_resources() {
    let registry = ResourceRegistry::new(vec![
        ResourceConfig {
            uri: "project://cache".to_string(),
            name: "Agent Cache".to_string(),
            description: Some("Project knowledge snapshot".to_string()),
            resource_type: ResourceType::File,
            path: Some("/tmp/test.json".to_string()),
            pattern: None,
            command: None,
            mime_type: Some("application/json".to_string()),
        },
        ResourceConfig {
            uri: "project://plans".to_string(),
            name: "Plan Index".to_string(),
            description: None,
            resource_type: ResourceType::File,
            path: Some("/tmp/INDEX.md".to_string()),
            pattern: None,
            command: None,
            mime_type: None,
        },
    ]);
    let list = registry.list();
    let resources: &Vec<Json> = match list.get("resources") {
        Some(Json::Array(items)) => items,
        _ => panic!("no resources array"),
    };
    assert_eq!(resources.len(), 2);
    assert_eq!(resources[0].get_str("uri"), Some("project://cache".to_string()));
    assert_eq!(resources[0].get_str("name"), Some("Agent Cache".to_string()));
    assert_eq!(resources[0].get_str("description"), Some("Project knowledge snapshot".to_string()));
    assert_eq!(resources[0].get_str("mimeType"), Some("application/json".to_string()));
    assert_eq!(resources[1].get_str("uri"), Some("project://plans".to_string()));
    assert!(resources[1].get("description").is_none());
    assert!(resources[1].get("mimeType").is_none());
}

#[test]
fn test_resource_not_found() {
    let registry = ResourceRegistry::new(vec![]);
    match registry.find("nonexistent://uri") {
        Err(McpError::ResourceNotFound { uri }) => assert_eq!(uri, "nonexistent://uri"),
        other => panic!("unexpected {:?}", other),
    }
}

#[test]
fn test_file_resource_missing_file() {
    let mut r = resource("test://missing", ResourceType::File);
    r.path = Some("/nonexistent/file.json".to_string());
    let registry = ResourceRegistry::new(vec![r]);
    let i = registry.find("test://missing").unwrap();
    let path = file_source(&registry.resources[i]).unwrap();
    assert_eq!(path, "/nonexistent/file.json");
    assert!(!std::path::Path::new(&path).exists());
    match file_missing("test://missing", &path) {
        McpError::ResourceNotFound { uri } => assert_eq!(uri, "test://missing (file: /nonexistent/file.json)"),
        other => panic!("unexpected {:?}", other),
    }
}

#[test]
fn resource_find_takes_first_match() {
    let mut a = resource("x://a", ResourceType::File);
    a.name = "first".to_string();
    let b = resource("x://b", ResourceType::Glob);
    let mut c = resource("x://a", ResourceType::Command);
    c.name = "second".to_string();
    let registry = ResourceRegistry::new(vec![a, b, c]);
    assert_eq!(registry.find("x://a").unwrap(), 0);
    assert_eq!(registry.find("x://b").unwrap(), 1);
}

#[test]
fn resource_sources_and_their_errors() {
    let f = resource("r://f", ResourceType::File);
    match file_source(&f) {
        Err(McpError::ConfigError { details }) => {
            assert_eq!(details, "Resource 'r://f' of type 'file' requires a 'path' field")
        }
        other => panic!("unexpected {:?}", other),
    }
    let mut g = resource("r://g", ResourceType::Glob);
    match glob_source(&g) {
        Err(McpError::ConfigError { details }) => {
            assert_eq!(details, "Resource 'r://g' of type 'glob' requires a 'pattern' or 'path' field")
        }
        other => panic!("unexpected {:?}", other),
    }
    g.path = Some("docs".to_string());
    assert_eq!(glob_source(&g).unwrap(), "docs");
    g.pattern = Some("docs/*.md".to_string());
    assert_eq!(glob_source(&g).unwrap(), "docs/*.md");
    let mut c = resource("r://c", ResourceType::Command);
    match command_words(&c) {
        Err(McpError::ConfigError { details }) => {
            assert_eq!(details, "Resource 'r://c' of type 'command' requires a 'command' field")
        }
        other => panic!("unexpected {:?}", other),
    }
    c.command = Some("   ".to_string());
    match command_words(&c) {
        Err(McpError::ConfigError { details }) => assert_eq!(details, "Resource 'r://c' has empty command"),
        other => panic!("unexpected {:?}", other),
    }
    c.command = Some("  echo  hello-resource ".to_string());
    assert_eq!(command_words(&c).unwrap(), vec!["echo".to_string(), "hello-resource".to_string()]);
}

#[test]
fn resource_read_result_and_sorted_listing() {
    let r = read_result("test://file", "application/json".to_string(), "{}".to_string());
    let items: &Vec<Json> = match r.get("contents") {
        Some(Json::Array(items)) => items,
        _ => panic!("no contents"),
    };
    assert_eq!(items.len(), 1);
    assert_eq!(items[0].get_str("uri"), Some("test://file".to_string()));
    assert_eq!(items[0].get_str("mimeType"), Some("application/json".to_string()));
    assert_eq!(items[0].get_str("text"), Some("{}".to_string()));
    let files = vec!["/t/b.md".to_string(), "/t/a.md".to_string(), "/t/B.md".to_string()];
    assert_eq!(sorted_lines(&files), "/t/B.md\n/t/a.md\n/t/b.md");
    assert_eq!(sorted_lines(&vec![]), "");
}

#[test]
fn adding_a_denial_never_grants_access() {
    let mut p = Policy::default();
    let denied: Vec<String> = p.denied_paths.clone();
    let allowed: Vec<String> = p.allowed_paths.clone();
    assert!(p.is_path_allowed("/tmp/project/file.txt", &denied, &allowed));
    assert!(!p.is_path_allowed("/etc/passwd", &denied, &allowed));
    p.add_denied_path("/tmp/project".to_string());
    let mut denied_after = denied.clone();
    denied_after.push("/tmp/project".to_string());
    assert!(!p.is_path_allowed("/tmp/project/file.txt", &denied_after, &allowed));
    assert!(!p.is_path_allowed("/tmp/project", &denied_after, &allowed));
    assert!(p.is_path_allowed("/tmp/other", &denied_after, &allowed));
    assert!(!p.is_path_allowed("/etc/passwd", &denied_after, &allowed));
}

#[test]
fn workspace_root_choice() {
    let mut c = Config::default();
    assert_eq!(initialize_workspace(&c, "/home/u/proj"), "/home/u/proj");
    c.server.workspace_root = Some("sub/dir".to_string());
    assert_eq!(initialize_workspace(&c, "/home/u/proj"), "/home/u/proj/sub/dir");
    c.server.workspace_root = Some("/srv/ws".to_string());
    assert_eq!(initialize_workspace(&c, "/home/u/proj"), "/srv/ws");
}

#[test]
fn invalid_loaded_config_falls_back() {
    let mut bad = Config::default();
    bad.policy.mode = "bogus".to_string();
    let c = Config::load_or_default(Some(bad));
    assert_eq!(c.policy.mode, "default");
    assert!(c.validate().is_ok());
    let mut named = Config::default();
    named.server.name = "kept".to_string();
    assert_eq!(Config::load_or_default(Some(named)).server.name, "kept");
    let mut bad2 = Config::default();
    bad2.logging.level = "loud".to_string();
    let mut third = Config::default();
    third.server.name = "third".to_string();
    let d = load_config(vec![Some(bad2), None, Some(third)]);
    assert_eq!(d.server.name, "third");
    assert!(d.validate().is_ok());
    assert!(Config::default().validate().is_ok());
}
