//! Server configuration: its defaults, its validation rules and the policy
//! and audit settings it yields.
use vstd::prelude::*;
use crate::mcp::audit::AuditConfig;
use crate::mcp::error::McpError;
use crate::mcp::policy::Policy;
use crate::mcp::resource::ResourceConfig;
use crate::text::{
    chars_of, concat2, concat3, copy_strings, eq_chars, lower, lowercase_chars, owned_strings,
    starts_with, starts_with_str, string_of,
    string_from, strs,
};

verus! {

/// Complete configuration for the server.
#[derive(Debug)]
pub struct Config {
    /// Server configuration.
    pub server: ServerConfig,
    /// Policy configuration.
    pub policy: PolicyConfig,
    /// Audit logging configuration.
    pub audit: AuditConfigToml,
    /// Tracing/logging configuration.
    pub logging: LoggingConfig,
    /// Resources exposed to clients.
    pub resources: Vec<ResourceConfig>,
}

/// Server-specific configuration.
#[derive(Debug)]
pub struct ServerConfig {
    /// Server name reported in initialize response.
    pub name: String,
    /// Server version reported in initialize response.
    pub version: String,
    /// Whether to enable health checks.
    pub enable_health_checks: bool,
    /// Request timeout in seconds.
    pub request_timeout_secs: Option<u64>,
    /// Workspace root used to resolve relative paths and command working directories.
    pub workspace_root: Option<String>,
    /// Transport mode: "stdio" or "http".
    pub transport: Option<String>,
    /// Address used by HTTP transport.
    pub http_addr: Option<String>,
}

/// Policy configuration (the file form of `Policy`).
#[derive(Debug)]
pub struct PolicyConfig {
    /// Allowed paths for file access.
    pub allowed_paths: Vec<String>,
    /// Denied paths (overrides allowed_paths).
    pub denied_paths: Vec<String>,
    /// Maximum file size in MB for read operations.
    pub max_file_size_mb: u64,
    /// Commands allowed for check_command tool.
    pub allowed_commands: Vec<String>,
    /// Whether to allow environment variable access.
    pub allow_env_access: bool,
    /// Whether to allow cargo operations.
    pub allow_cargo_operations: bool,
    /// Whether to force a read-only cloud-safe tool surface.
    pub read_only: bool,
    /// Explicit allowlist of tool names. Empty means all registered tools are eligible.
    pub enabled_tools: Vec<String>,
    /// Explicit denylist of tool names.
    pub disabled_tools: Vec<String>,
    /// Policy mode: "default", "restrictive", or "permissive".
    pub mode: String,
}

/// Audit configuration (the file form of `AuditConfig`).
#[derive(Debug)]
pub struct AuditConfigToml {
    /// Whether audit logging is enabled.
    pub enabled: bool,
    /// Path to audit log file.
    pub log_path: String,
    /// Log successful operations.
    pub log_successes: bool,
    /// Log policy denials.
    pub log_policy_denials: bool,
    /// Log errors.
    pub log_errors: bool,
    /// Maximum log file size in MB before rotation.
    pub max_file_size_mb: u64,
    /// Pretty print JSON logs.
    pub pretty_print: bool,
}

/// Logging configuration.
#[derive(Debug)]
pub struct LoggingConfig {
    /// Log level: "trace", "debug", "info", "warn", "error".
    pub level: String,
    /// Log format: "compact", "pretty", "json".
    pub format: String,
    /// Whether to include timestamps.
    pub include_timestamps: bool,
    /// Whether to include source locations.
    pub include_source: bool,
}

/// Bytes in a megabyte.
pub open spec fn mib() -> nat {
    1048576
}

impl Config {
    /// The first rule the configuration breaks, as its message.
    pub open spec fn validation_error(self) -> Option<Seq<char>> {
        if self.server.transport is Some && !(self.server.transport->0@ == "stdio"@
            || self.server.transport->0@ == "http"@) {
            Some(
                "Invalid transport '"@ + self.server.transport->0@
                    + "'. Must be 'stdio' or 'http'"@,
            )
        } else if !(self.policy.mode@ == "default"@ || self.policy.mode@ == "restrictive"@
            || self.policy.mode@ == "permissive"@) {
            Some(
                "Invalid policy mode '"@ + self.policy.mode@
                    + "'. Must be 'default', 'restrictive', or 'permissive'"@,
            )
        } else if !(lower(self.logging.level@) == "trace"@ || lower(self.logging.level@)
            == "debug"@ || lower(self.logging.level@) == "info"@ || lower(self.logging.level@)
            == "warn"@ || lower(self.logging.level@) == "error"@) {
            Some(
                "Invalid log level '"@ + self.logging.level@
                    + "'. Must be one of: trace, debug, info, warn, error"@,
            )
        } else if !(lower(self.logging.format@) == "compact"@ || lower(self.logging.format@)
            == "pretty"@ || lower(self.logging.format@) == "json"@) {
            Some(
                "Invalid log format '"@ + self.logging.format@
                    + "'. Must be one of: compact, pretty, json"@,
            )
        } else if self.policy.max_file_size_mb == 0 {
            Some("Policy max_file_size_mb must be greater than 0"@)
        } else if self.audit.max_file_size_mb == 0 {
            Some("Audit max_file_size_mb must be greater than 0"@)
        } else {
            None
        }
    }

    /// Validate the configuration.
    pub fn validate(&self) -> (r: Result<(), McpError>)
        ensures
            match self.validation_error() {
                None => r is Ok,
                Some(m) => r matches Err(McpError::ConfigError { details }) && details@ == m,
            },
    {
        if let Some(t) = &self.server.transport {
            let tc = chars_of(t.as_str());
            if !(eq_chars(tc.as_slice(), chars_of("stdio").as_slice()) || eq_chars(
                tc.as_slice(),
                chars_of("http").as_slice(),
            )) {
                return Err(
                    McpError::ConfigError {
                        details: concat3(
                            "Invalid transport '",
                            tc.as_slice(),
                            "'. Must be 'stdio' or 'http'",
                        ),
                    },
                );
            }
        }
        let mc = chars_of(self.policy.mode.as_str());
        if !(eq_chars(mc.as_slice(), chars_of("default").as_slice()) || eq_chars(
            mc.as_slice(),
            chars_of("restrictive").as_slice(),
        ) || eq_chars(mc.as_slice(), chars_of("permissive").as_slice())) {
            return Err(
                McpError::ConfigError {
                    details: concat3(
                        "Invalid policy mode '",
                        mc.as_slice(),
                        "'. Must be 'default', 'restrictive', or 'permissive'",
                    ),
                },
            );
        }
        let lc = chars_of(self.logging.level.as_str());
        let ll = lowercase_chars(lc.as_slice());
        if !(eq_chars(ll.as_slice(), chars_of("trace").as_slice()) || eq_chars(
            ll.as_slice(),
            chars_of("debug").as_slice(),
        ) || eq_chars(ll.as_slice(), chars_of("info").as_slice()) || eq_chars(
            ll.as_slice(),
            chars_of("warn").as_slice(),
        ) || eq_chars(ll.as_slice(), chars_of("error").as_slice())) {
            return Err(
                McpError::ConfigError {
                    details: concat3(
                        "Invalid log level '",
                        lc.as_slice(),
                        "'. Must be one of: trace, debug, info, warn, error",
                    ),
                },
            );
        }
        let fc = chars_of(self.logging.format.as_str());
        let fl = lowercase_chars(fc.as_slice());
        if !(eq_chars(fl.as_slice(), chars_of("compact").as_slice()) || eq_chars(
            fl.as_slice(),
            chars_of("pretty").as_slice(),
        ) || eq_chars(fl.as_slice(), chars_of("json").as_slice())) {
            return Err(
                McpError::ConfigError {
                    details: concat3(
                        "Invalid log format '",
                        fc.as_slice(),
                        "'. Must be one of: compact, pretty, json",
                    ),
                },
            );
        }
        if self.policy.max_file_size_mb == 0 {
            return Err(
                McpError::ConfigError {
                    details: string_from("Policy max_file_size_mb must be greater than 0"),
                },
            );
        }
        if self.audit.max_file_size_mb == 0 {
            return Err(
                McpError::ConfigError {
                    details: string_from("Audit max_file_size_mb must be greater than 0"),
                },
            );
        }
        Ok(())
    }

    /// The policy the configuration describes: every setting of the policy
    /// section, with the size limit converted from megabytes to bytes.
    pub fn to_policy(&self) -> (p: Policy)
        requires
            self.policy.max_file_size_mb * mib() <= u64::MAX,
        ensures
            strs(p.allowed_paths@) == strs(self.policy.allowed_paths@),
            strs(p.denied_paths@) == strs(self.policy.denied_paths@),
            p.max_file_size == self.policy.max_file_size_mb * mib(),
            strs(p.allowed_commands@) == strs(self.policy.allowed_commands@),
            p.allow_env_access == self.policy.allow_env_access,
            p.allow_cargo_operations == self.policy.allow_cargo_operations,
            p.read_only == self.policy.read_only,
            strs(p.enabled_tools@) == strs(self.policy.enabled_tools@),
            strs(p.disabled_tools@) == strs(self.policy.disabled_tools@),
    {
        let mc = chars_of(self.policy.mode.as_str());
        let mut policy = if eq_chars(mc.as_slice(), chars_of("restrictive").as_slice()) {
            Policy::restrictive()
        } else if eq_chars(mc.as_slice(), chars_of("permissive").as_slice()) {
            Self::create_permissive_policy()
        } else {
            Policy::new()
        };
        policy.allowed_paths = copy_strings(&self.policy.allowed_paths);
        policy.denied_paths = copy_strings(&self.policy.denied_paths);
        policy.max_file_size = self.policy.max_file_size_mb * 1048576;
        policy.allowed_commands = copy_strings(&self.policy.allowed_commands);
        policy.allow_env_access = self.policy.allow_env_access;
        policy.allow_cargo_operations = self.policy.allow_cargo_operations;
        policy.read_only = self.policy.read_only;
        policy.enabled_tools = copy_strings(&self.policy.enabled_tools);
        policy.disabled_tools = copy_strings(&self.policy.disabled_tools);
        policy
    }

    /// The audit settings the configuration describes, with the size limit
    /// converted from megabytes to bytes.
    pub fn to_audit_config(&self) -> (a: AuditConfig)
        requires
            self.audit.max_file_size_mb * mib() <= u64::MAX,
        ensures
            a.enabled == self.audit.enabled,
            a.log_path@ == self.audit.log_path@,
            a.log_successes == self.audit.log_successes,
            a.log_policy_denials == self.audit.log_policy_denials,
            a.log_errors == self.audit.log_errors,
            a.max_file_size == self.audit.max_file_size_mb * mib(),
            a.pretty_print == self.audit.pretty_print,
    {
        AuditConfig {
            enabled: self.audit.enabled,
            log_path: self.audit.log_path.clone(),
            log_successes: self.audit.log_successes,
            log_policy_denials: self.audit.log_policy_denials,
            log_errors: self.audit.log_errors,
            max_file_size: self.audit.max_file_size_mb * 1048576,
            pretty_print: self.audit.pretty_print,
        }
    }

    /// The permissive policy: everything under `/`, no denied paths,
    /// 100 MB files and the build toolchains.
    fn create_permissive_policy() -> (p: Policy)
        ensures
            strs(p.allowed_paths@) == seq!["/"@],
            p.denied_paths@.len() == 0,
            p.max_file_size == 100 * 1024 * 1024,
            strs(p.allowed_commands@) == seq![
                "cargo"@,
                "rustc"@,
                "git"@,
                "node"@,
                "npm"@,
                "yarn"@,
                "python"@,
                "python3"@,
                "make"@,
                "cmake"@,
                "gcc"@,
                "clang"@,
            ],
            p.allow_env_access,
            p.allow_cargo_operations,
            !p.read_only,
            p.enabled_tools@.len() == 0,
            p.disabled_tools@.len() == 0,
    {
        let p = Policy {
            allowed_paths: owned_strings(&["/"]),
            denied_paths: Vec::new(),
            max_file_size: 100 * 1024 * 1024,
            allow_env_access: true,
            allow_cargo_operations: true,
            read_only: false,
            enabled_tools: Vec::new(),
            disabled_tools: Vec::new(),
            allowed_commands: owned_strings(
                &[
                    "cargo",
                    "rustc",
                    "git",
                    "node",
                    "npm",
                    "yarn",
                    "python",
                    "python3",
                    "make",
                    "cmake",
                    "gcc",
                    "clang",
                ],
            ),
        };
        proof {
            assert(strs(p.allowed_paths@) =~= seq!["/"@]);
            assert(strs(p.allowed_commands@) =~= seq![
                "cargo"@,
                "rustc"@,
                "git"@,
                "node"@,
                "npm"@,
                "yarn"@,
                "python"@,
                "python3"@,
                "make"@,
                "cmake"@,
                "gcc"@,
                "clang"@,
            ]);
        }
        p
    }

    /// The tracing filter for the configured level.
    pub fn get_tracing_filter(&self) -> (r: String)
        ensures
            r@ == "mcp_rs="@ + lower(self.logging.level@),
    {
        let lc = chars_of(self.logging.level.as_str());
        let ll = lowercase_chars(lc.as_slice());
        concat2("mcp_rs=", ll.as_slice())
    }
}

impl Config {
    /// Every field holds its default.
    pub open spec fn is_default(self) -> bool {
        &&& self.server.name@ == "mcp-rs"@
        &&& self.server.version@ == "0.1.0"@
        &&& self.server.enable_health_checks
        &&& self.server.request_timeout_secs is None
        &&& self.server.workspace_root is None
        &&& self.server.transport is None
        &&& self.server.http_addr is None
        &&& self.policy.is_default()
        &&& self.audit.is_default()
        &&& self.logging.level@ == "info"@
        &&& self.logging.format@ == "compact"@
        &&& self.logging.include_timestamps
        &&& !self.logging.include_source
        &&& self.resources@.len() == 0
    }

    /// Accept a configuration read from a file if it is valid.
    pub fn load_from_parsed(parsed: Config) -> (r: Result<Config, McpError>)
        ensures
            match parsed.validation_error() {
                None => r matches Ok(c) && c == parsed,
                Some(m) => r matches Err(McpError::ConfigError { details }) && details@ == m,
            },
    {
        match parsed.validate() {
            Ok(()) => Ok(parsed),
            Err(e) => Err(e),
        }
    }

    /// The configuration that was loaded if it is valid, otherwise the
    /// default; the result always passes validation.
    pub fn load_or_default(loaded: Option<Config>) -> (c: Config)
        ensures
            match loaded {
                Some(l) => if l.validation_error() is None {
                    c == l
                } else {
                    c.is_default()
                },
                None => c.is_default(),
            },
            c.validation_error() is None,
    {
        match loaded {
            Some(l) => match l.validate() {
                Ok(()) => l,
                Err(_) => Config::default(),
            },
            None => Config::default(),
        }
    }
}

/// The attempt loaded a configuration that passes validation.
pub open spec fn loaded_valid(a: Option<Config>) -> bool {
    a matches Some(c) && c.validation_error() is None
}

/// Index of the first attempt at or after `i` that loaded a valid
/// configuration.
pub open spec fn first_loaded_from(s: Seq<Option<Config>>, i: int) -> Option<int>
    decreases s.len() - i,
{
    if i < 0 || i >= s.len() {
        None
    } else if loaded_valid(s[i]) {
        Some(i)
    } else {
        first_loaded_from(s, i + 1)
    }
}

/// Index of the first attempt that loaded a valid configuration.
pub open spec fn first_loaded(s: Seq<Option<Config>>) -> Option<int> {
    first_loaded_from(s, 0)
}

/// The first configuration that loaded and passes validation, in the order
/// the candidates were tried, or the default; the result always passes
/// validation.
pub fn load_config(attempts: Vec<Option<Config>>) -> (c: Config)
    ensures
        match first_loaded(attempts@) {
            Some(i) => c == attempts@[i].unwrap(),
            None => c.is_default(),
        },
        c.validation_error() is None,
{
    let ghost all = attempts@;
    let total = attempts.len();
    let mut rest = attempts;
    let mut i: usize = 0;
    let mut found: Option<Config> = None;
    while found.is_none() && rest.len() > 0
        invariant
            i <= all.len(),
            total == all.len(),
            rest@ == all.skip(i as int),
            found is None ==> first_loaded(all) == first_loaded_from(all, i as int),
            found matches Some(f) ==> (first_loaded(all) matches Some(k) && f == all[k].unwrap()),
            found matches Some(f) ==> f.validation_error() is None,
        decreases all.len() - i,
    {
        proof {
            assert(rest@[0] == all[i as int]);
        }
        let a = rest.remove(0);
        proof {
            assert(rest@ =~= all.skip(i + 1));
        }
        match a {
            Some(cfg) => match cfg.validate() {
                Ok(()) => {
                    found = Some(cfg);
                },
                Err(_) => {},
            },
            None => {},
        }
        i = i + 1;
    }
    proof {
        if found is None {
            assert(i == all.len());
        }
    }
    Config::load_or_default(found)
}

/// The home-relative path `~` or `~/…` resolved against `home`; any other
/// path, or one without a home, unchanged.
pub open spec fn expanded(path: Seq<char>, home: Option<Seq<char>>) -> Seq<char> {
    if (path == "~"@ || starts_with(path, "~/"@)) && home is Some {
        let suffix = if starts_with(path, "~/"@) {
            path.skip(2)
        } else {
            seq![]
        };
        crate::mcp::workspace::join_path(home.unwrap(), suffix)
    } else {
        path
    }
}

/// Resolve a leading `~` against the home directory.
pub fn expand_home(path: &str, home: Option<&str>) -> (r: String)
    ensures
        r@ == expanded(path@, match home {
            Some(h) => Some(h@),
            None => None,
        }),
{
    let pc = chars_of(path);
    proof {
        reveal_strlit("~/");
        reveal_strlit("~");
    }
    let tilde = crate::text::eq_str(path, "~");
    let tilde_slash = starts_with_str(pc.as_slice(), "~/");
    if (tilde || tilde_slash) && home.is_some() {
        let suffix = if tilde_slash {
            crate::text::slice_copy(pc.as_slice(), 2, pc.len())
        } else {
            Vec::new()
        };
        proof {
            if tilde_slash {
                assert(suffix@ =~= path@.skip(2));
            } else {
                assert(suffix@ =~= Seq::<char>::empty());
            }
        }
        let s = string_of(suffix.as_slice());
        crate::mcp::workspace::resolve_path(home.unwrap(), s.as_str())
    } else {
        string_from(path)
    }
}

/// The configuration files to try, in order: an explicit path, the path in
/// `MCP_RS_CONFIG`, then the standard locations.
pub fn config_candidates(explicit: Option<&str>, env_path: Option<&str>, home: Option<&str>) -> (r: Vec<String>)
    ensures
        ({
            let h = match home {
                Some(x) => Some(x@),
                None => None,
            };
            let head: Seq<Seq<char>> = (match explicit {
                Some(e) => seq![e@],
                None => seq![],
            }) + (match env_path {
                Some(p) => seq![expanded(p@, h)],
                None => seq![],
            });
            strs(r@) == head + seq![
                "mcp-rs.toml"@,
                ".mcp-rs.toml"@,
                "config/mcp-rs.toml"@,
                expanded("~/.config/mcp-rs/config.toml"@, h),
                "/etc/mcp-rs/config.toml"@,
            ]
        }),
{
    let mut out: Vec<String> = Vec::new();
    if let Some(e) = explicit {
        out.push(string_from(e));
    }
    if let Some(p) = env_path {
        out.push(expand_home(p, home));
    }
    out.push(string_from("mcp-rs.toml"));
    out.push(string_from(".mcp-rs.toml"));
    out.push(string_from("config/mcp-rs.toml"));
    out.push(expand_home("~/.config/mcp-rs/config.toml", home));
    out.push(string_from("/etc/mcp-rs/config.toml"));
    proof {
        let h = match home {
            Some(x) => Some(x@),
            None => None,
        };
        let head: Seq<Seq<char>> = (match explicit {
            Some(e) => seq![e@],
            None => seq![],
        }) + (match env_path {
            Some(p) => seq![expanded(p@, h)],
            None => seq![],
        });
        assert(strs(out@) =~= head + seq![
            "mcp-rs.toml"@,
            ".mcp-rs.toml"@,
            "config/mcp-rs.toml"@,
            expanded("~/.config/mcp-rs/config.toml"@, h),
            "/etc/mcp-rs/config.toml"@,
        ]);
    }
    out
}

/// The workspace root to use before it is made canonical: the configured
/// root, resolved against the working directory `cwd` when it is relative,
/// else `cwd` itself.
pub fn initialize_workspace(config: &Config, cwd: &str) -> (r: String)
    ensures
        match config.server.workspace_root {
            Some(p) => r@ == crate::mcp::workspace::join_path(cwd@, p@),
            None => r@ == cwd@,
        },
{
    match &config.server.workspace_root {
        Some(p) => crate::mcp::workspace::resolve_path(cwd, p.as_str()),
        None => string_from(cwd),
    }
}

impl Default for Config {
    fn default() -> (c: Config)
        ensures
            c.server.name@ == "mcp-rs"@,
            c.server.version@ == "0.1.0"@,
            c.server.enable_health_checks,
            c.server.request_timeout_secs is None,
            c.server.workspace_root is None,
            c.server.transport is None,
            c.server.http_addr is None,
            c.policy.is_default(),
            c.audit.is_default(),
            c.logging.level@ == "info"@,
            c.logging.format@ == "compact"@,
            c.logging.include_timestamps,
            !c.logging.include_source,
            c.resources@.len() == 0,
            c.validation_error() is None,
    {
        Config {
            server: ServerConfig::default(),
            policy: PolicyConfig::default(),
            audit: AuditConfigToml::default(),
            logging: LoggingConfig::default(),
            resources: Vec::new(),
        }
    }
}

impl Default for ServerConfig {
    fn default() -> (c: ServerConfig)
        ensures
            c.name@ == "mcp-rs"@,
            c.version@ == "0.1.0"@,
            c.enable_health_checks,
            c.request_timeout_secs is None,
            c.workspace_root is None,
            c.transport is None,
            c.http_addr is None,
    {
        ServerConfig {
            name: string_from("mcp-rs"),
            version: string_from("0.1.0"),
            enable_health_checks: true,
            request_timeout_secs: None,
            workspace_root: None,
            transport: None,
            http_addr: None,
        }
    }
}

impl PolicyConfig {
    /// The default policy section.
    pub open spec fn is_default(self) -> bool {
        &&& strs(self.allowed_paths@) == seq!["."@, "/tmp"@, "/var/tmp"@]
        &&& strs(self.denied_paths@) == seq![
            "/etc"@,
            "/System"@,
            "/usr/bin"@,
            "/usr/sbin"@,
            "/sbin"@,
            "/bin"@,
            "/boot"@,
            "/root"@,
        ]
        &&& self.max_file_size_mb == 10
        &&& strs(self.allowed_commands@) == seq![
            "cargo"@,
            "rustc"@,
            "git"@,
            "node"@,
            "npm"@,
            "yarn"@,
            "python"@,
            "python3"@,
        ]
        &&& self.allow_env_access
        &&& self.allow_cargo_operations
        &&& !self.read_only
        &&& self.enabled_tools@.len() == 0
        &&& self.disabled_tools@.len() == 0
        &&& self.mode@ == "default"@
    }
}

impl Default for PolicyConfig {
    fn default() -> (c: PolicyConfig)
        ensures
            c.is_default(),
    {
        let c = PolicyConfig {
            allowed_paths: owned_strings(&[".", "/tmp", "/var/tmp"]),
            denied_paths: owned_strings(
                &["/etc", "/System", "/usr/bin", "/usr/sbin", "/sbin", "/bin", "/boot", "/root"],
            ),
            max_file_size_mb: 10,
            allowed_commands: owned_strings(
                &["cargo", "rustc", "git", "node", "npm", "yarn", "python", "python3"],
            ),
            allow_env_access: true,
            allow_cargo_operations: true,
            read_only: false,
            enabled_tools: Vec::new(),
            disabled_tools: Vec::new(),
            mode: string_from("default"),
        };
        proof {
            assert(strs(c.allowed_paths@) =~= seq!["."@, "/tmp"@, "/var/tmp"@]);
            assert(strs(c.denied_paths@) =~= seq![
                "/etc"@,
                "/System"@,
                "/usr/bin"@,
                "/usr/sbin"@,
                "/sbin"@,
                "/bin"@,
                "/boot"@,
                "/root"@,
            ]);
            assert(strs(c.allowed_commands@) =~= seq![
                "cargo"@,
                "rustc"@,
                "git"@,
                "node"@,
                "npm"@,
                "yarn"@,
                "python"@,
                "python3"@,
            ]);
        }
        c
    }
}

impl AuditConfigToml {
    /// The default audit section.
    pub open spec fn is_default(self) -> bool {
        &&& self.enabled
        &&& self.log_path@ == "mcp-audit.jsonl"@
        &&& self.log_successes
        &&& self.log_policy_denials
        &&& self.log_errors
        &&& self.max_file_size_mb == 100
        &&& !self.pretty_print
    }
}

impl Default for AuditConfigToml {
    fn default() -> (c: AuditConfigToml)
        ensures
            c.is_default(),
    {
        AuditConfigToml {
            enabled: true,
            log_path: string_from("mcp-audit.jsonl"),
            log_successes: true,
            log_policy_denials: true,
            log_errors: true,
            max_file_size_mb: 100,
            pretty_print: false,
        }
    }
}

impl Default for LoggingConfig {
    fn default() -> (c: LoggingConfig)
        ensures
            c.level@ == "info"@,
            c.format@ == "compact"@,
            lower(c.level@) == "info"@,
            lower(c.format@) == "compact"@,
            c.include_timestamps,
            !c.include_source,
    {
        // The names are taken in their lowercase form, the form in which
        // validation compares them.
        let level = lowercase_chars(chars_of("info").as_slice());
        let format = lowercase_chars(chars_of("compact").as_slice());
        proof {
            reveal_strlit("info");
            reveal_strlit("compact");
            assert(crate::text::ascii_lower("info"@) =~= "info"@);
            assert(crate::text::ascii_lower("compact"@) =~= "compact"@);
        }
        LoggingConfig {
            level: string_of(level.as_slice()),
            format: string_of(format.as_slice()),
            include_timestamps: true,
            include_source: false,
        }
    }
}

} // verus!
