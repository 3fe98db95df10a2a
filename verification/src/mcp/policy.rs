//! Tool access policy: which tools may be listed and called, and which
//! arguments a call must carry before its paths are checked on disk.
use vstd::prelude::*;
use crate::json::Json;
use crate::mcp::error::McpError;
use crate::mcp::workspace::{first_prefix, judge_path};
use crate::text::{
    chars_of, concat3, copy_strings, dec, decimal, eq_str, extend, extend_str, list_contains,
    owned_strings, starts_with, starts_with_seq, string_of, strs,
};

verus! {

/// Policy configuration for tool access control.
#[derive(Debug)]
pub struct Policy {
    /// Paths that are allowed to be accessed.
    pub allowed_paths: Vec<String>,
    /// Paths that are explicitly denied (takes precedence over allowed).
    pub denied_paths: Vec<String>,
    /// Maximum file size in bytes for read operations.
    pub max_file_size: u64,
    /// Commands that are allowed for check_command tool.
    pub allowed_commands: Vec<String>,
    /// Whether to allow access to environment variables.
    pub allow_env_access: bool,
    /// Whether to allow cargo operations.
    pub allow_cargo_operations: bool,
    /// Whether to force a read-only cloud-safe tool surface.
    pub read_only: bool,
    /// Explicit allowlist of tool names. Empty means all registered tools can be listed/called.
    pub enabled_tools: Vec<String>,
    /// Explicit denylist of tool names.
    pub disabled_tools: Vec<String>,
}

/// A path that a permitted call must still have validated against the
/// allowed and denied paths.
#[derive(Debug)]
pub enum PathCheck {
    /// The path named in the arguments; `limit_size` when the file's size
    /// must also stay within `max_file_size`.
    Given { path: String, limit_size: bool },
    /// The workspace root, used when an optional path argument is absent.
    WorkspaceRoot,
}

/// Tools that the read-only surface keeps.
pub open spec fn read_only_tool(name: Seq<char>) -> bool {
    ||| name == "say_hello"@
    ||| name == "health"@
    ||| name == "read_file"@
    ||| name == "list_directory"@
    ||| name == "grep_file"@
    ||| name == "file_stats"@
    ||| name == "grep_project"@
    ||| name == "find_files"@
    ||| name == "read_toml"@
    ||| name == "json_query"@
    ||| name == "markdown_query"@
    ||| name == "migration_list"@
}

/// The argument that names the file a tool reads, for tools that must have one.
pub open spec fn required_path_field(name: Seq<char>) -> Option<Seq<char>> {
    if name == "read_file"@ || name == "list_directory"@ || name == "grep_file"@ || name
        == "file_stats"@ || name == "read_toml"@ || name == "json_query"@ || name
        == "markdown_query"@ {
        Some("path"@)
    } else if name == "sqlite_query"@ || name == "sqlite_schema"@ {
        Some("db_path"@)
    } else if name == "migration_list"@ {
        Some("migrations_dir"@)
    } else {
        None
    }
}

/// Tools that run cargo and need cargo operations enabled.
pub open spec fn cargo_tool(name: Seq<char>) -> bool {
    name == "cargo_check"@ || name == "cargo_build"@ || name == "cargo_test"@ || name
        == "workspace_info"@
}

/// Project search tools whose path argument is optional.
pub open spec fn search_tool(name: Seq<char>) -> bool {
    name == "grep_project"@ || name == "find_files"@
}

/// Tools that touch nothing sensitive.
pub open spec fn safe_tool(name: Seq<char>) -> bool {
    name == "say_hello"@ || name == "system_info"@ || name == "health"@
}

/// `r` is a policy denial with `reason`.
pub open spec fn denied_with(r: Result<Vec<PathCheck>, McpError>, reason: Seq<char>) -> bool {
    r matches Err(McpError::PolicyDenied { reason: m }) && m@ == reason
}

/// `r` is an argument error.
pub open spec fn bad_args(
    r: Result<Vec<PathCheck>, McpError>,
    tool: Seq<char>,
    details: Seq<char>,
) -> bool {
    r matches Err(McpError::InvalidArguments { tool_name: t, details: d }) && t@ == tool && d@
        == details
}

/// `r` permits the call with no path left to check.
pub open spec fn no_checks(r: Result<Vec<PathCheck>, McpError>) -> bool {
    r matches Ok(v) && v@.len() == 0
}

/// `r` permits the call once `path` is validated.
pub open spec fn one_check(r: Result<Vec<PathCheck>, McpError>, path: Seq<char>, limit: bool) -> bool {
    &&& r matches Ok(v)
    &&& v@.len() == 1
    &&& v@[0] matches PathCheck::Given { path: p, limit_size: l }
    &&& p@ == path
    &&& l == limit
}

/// `r` permits the call once the optional `path` argument, or the
/// workspace root, is validated.
pub open spec fn optional_path_check(r: Result<Vec<PathCheck>, McpError>, args: Json) -> bool {
    match args.str_field("path"@) {
        Some(p) => one_check(r, p, false),
        None => r matches Ok(v) && v@.len() == 1 && v@[0] is WorkspaceRoot,
    }
}

impl Policy {
    /// The tool is not denylisted, and the allowlist is empty or names it.
    pub open spec fn tool_enabled(self, name: Seq<char>) -> bool {
        &&& !strs(self.disabled_tools@).contains(name)
        &&& (self.enabled_tools@.len() == 0 || strs(self.enabled_tools@).contains(name))
    }

    /// The tool appears in `tools/list`.
    pub open spec fn tool_listed(self, name: Seq<char>) -> bool {
        self.tool_enabled(name) && (!self.read_only || read_only_tool(name))
    }

    /// Some allowed command is a prefix of `command`.
    pub open spec fn command_allowed(self, command: Seq<char>) -> bool {
        exists|i: int|
            0 <= i < self.allowed_commands@.len() && starts_with(
                command,
                #[trigger] self.allowed_commands@[i]@,
            )
    }

    /// What `check` decides for a call of `name` with `args`, before any
    /// path is looked up on disk.
    pub open spec fn check_result(
        self,
        name: Seq<char>,
        args: Json,
        r: Result<Vec<PathCheck>, McpError>,
    ) -> bool {
        if !self.tool_enabled(name) {
            denied_with(r, "Tool '"@ + name + "' is disabled by policy"@)
        } else if self.read_only && !read_only_tool(name) {
            denied_with(r, "Tool '"@ + name + "' is not available in read-only mode"@)
        } else if name == "read_env"@ {
            if self.allow_env_access {
                no_checks(r)
            } else {
                denied_with(r, "Environment variable access is disabled"@)
            }
        } else if name == "check_command"@ {
            match args.str_field("command"@) {
                None => bad_args(r, "check_command"@, "Missing or invalid 'command' field"@),
                Some(c) => if self.command_allowed(c) {
                    no_checks(r)
                } else {
                    denied_with(r, "Command '"@ + c + "' is not in allowlist"@)
                },
            }
        } else if cargo_tool(name) {
            if self.allow_cargo_operations {
                optional_path_check(r, args)
            } else {
                denied_with(r, "Cargo operations are disabled"@)
            }
        } else if search_tool(name) {
            optional_path_check(r, args)
        } else if required_path_field(name) is Some {
            let field = required_path_field(name)->0;
            match args.str_field(field) {
                None => bad_args(r, "file_access"@, "Missing or invalid '"@ + field + "' field"@),
                Some(p) => one_check(r, p, field == "path"@),
            }
        } else if name == "just_run"@ {
            if strs(self.allowed_commands@).contains("just"@) {
                no_checks(r)
            } else {
                denied_with(r, "Command '"@ + "just"@ + "' is not in allowlist"@)
            }
        } else if safe_tool(name) {
            no_checks(r)
        } else {
            denied_with(r, "Unknown tool: "@ + name)
        }
    }

    /// Every setting of the default policy.
    pub open spec fn is_default(self) -> bool {
        &&& strs(self.allowed_paths@) == seq!["."@, "/tmp"@, "/var/tmp"@]
        &&& strs(self.denied_paths@) == seq![ "/etc"@, "/System"@, "/usr/bin"@, "/usr/sbin"@, "/sbin"@, "/bin"@, "/boot"@, "/root"@, ]
        &&& self.max_file_size == 10 * 1024 * 1024
        &&& strs(self.allowed_commands@) == seq![ "cargo"@, "rustc"@, "git"@, "node"@, "npm"@, "yarn"@, "python"@, "python3"@, ]
        &&& self.allow_env_access
        &&& self.allow_cargo_operations
        &&& !self.read_only
        &&& self.enabled_tools@.len() == 0
        &&& self.disabled_tools@.len() == 0
    }

    /// The default policy: the working directory and temporary directories
    /// allowed, system directories denied, common toolchains allowed.
    pub fn new() -> (p: Policy)
        ensures
            p.is_default(),
    {
        let allowed = owned_strings(&[".", "/tmp", "/var/tmp"]);
        let denied = owned_strings(
            &["/etc", "/System", "/usr/bin", "/usr/sbin", "/sbin", "/bin", "/boot", "/root"],
        );
        let commands = owned_strings(
            &["cargo", "rustc", "git", "node", "npm", "yarn", "python", "python3"],
        );
        let p = Policy {
            allowed_paths: allowed,
            denied_paths: denied,
            max_file_size: 10 * 1024 * 1024,
            allowed_commands: commands,
            allow_env_access: true,
            allow_cargo_operations: true,
            read_only: false,
            enabled_tools: Vec::new(),
            disabled_tools: Vec::new(),
        };
        proof {
            assert(strs(p.allowed_paths@) =~= seq!["."@, "/tmp"@, "/var/tmp"@]);
            assert(strs(p.denied_paths@) =~= seq![
                "/etc"@,
                "/System"@,
                "/usr/bin"@,
                "/usr/sbin"@,
                "/sbin"@,
                "/bin"@,
                "/boot"@,
                "/root"@,
            ]);
            assert(strs(p.allowed_commands@) =~= seq![
                "cargo"@,
                "rustc"@,
                "git"@,
                "node"@,
                "npm"@,
                "yarn"@,
                "python"@,
                "python3"@,
            ]);
        }
        p
    }

    /// A restrictive policy for production use.
    pub fn restrictive() -> (p: Policy)
        ensures
            strs(p.allowed_paths@) == seq!["."@],
            strs(p.denied_paths@) == seq![
                "/"@,
                "/etc"@,
                "/var"@,
                "/usr"@,
                "/home"@,
                "/root"@,
                "/tmp"@,
            ],
            p.max_file_size == 1024 * 1024,
            strs(p.allowed_commands@) == seq!["cargo"@],
            !p.allow_env_access,
            p.allow_cargo_operations,
            !p.read_only,
            p.enabled_tools@.len() == 0,
            p.disabled_tools@.len() == 0,
    {
        let allowed = owned_strings(&["."]);
        let denied = owned_strings(&["/", "/etc", "/var", "/usr", "/home", "/root", "/tmp"]);
        let commands = owned_strings(&["cargo"]);
        let p = Policy {
            allowed_paths: allowed,
            denied_paths: denied,
            max_file_size: 1024 * 1024,
            allowed_commands: commands,
            allow_env_access: false,
            allow_cargo_operations: true,
            read_only: false,
            enabled_tools: Vec::new(),
            disabled_tools: Vec::new(),
        };
        proof {
            assert(strs(p.allowed_paths@) =~= seq!["."@]);
            assert(strs(p.denied_paths@) =~= seq![
                "/"@,
                "/etc"@,
                "/var"@,
                "/usr"@,
                "/home"@,
                "/root"@,
                "/tmp"@,
            ]);
            assert(strs(p.allowed_commands@) =~= seq!["cargo"@]);
        }
        p
    }

    /// A copy of the policy.
    pub fn duplicate(&self) -> (p: Policy)
        ensures
            p.same_as(*self),
    {
        Policy {
            allowed_paths: copy_strings(&self.allowed_paths),
            denied_paths: copy_strings(&self.denied_paths),
            max_file_size: self.max_file_size,
            allowed_commands: copy_strings(&self.allowed_commands),
            allow_env_access: self.allow_env_access,
            allow_cargo_operations: self.allow_cargo_operations,
            read_only: self.read_only,
            enabled_tools: copy_strings(&self.enabled_tools),
            disabled_tools: copy_strings(&self.disabled_tools),
        }
    }

    /// Same settings, string for string.
    pub open spec fn same_as(self, o: Policy) -> bool {
        &&& strs(self.allowed_paths@) == strs(o.allowed_paths@)
        &&& strs(self.denied_paths@) == strs(o.denied_paths@)
        &&& self.max_file_size == o.max_file_size
        &&& strs(self.allowed_commands@) == strs(o.allowed_commands@)
        &&& self.allow_env_access == o.allow_env_access
        &&& self.allow_cargo_operations == o.allow_cargo_operations
        &&& self.read_only == o.read_only
        &&& strs(self.enabled_tools@) == strs(o.enabled_tools@)
        &&& strs(self.disabled_tools@) == strs(o.disabled_tools@)
    }

    /// Whether the tool may be called at all.
    pub fn is_tool_enabled(&self, tool_name: &str) -> (b: bool)
        ensures
            b == self.tool_enabled(tool_name@),
    {
        if list_contains(&self.disabled_tools, tool_name) {
            return false;
        }
        if self.enabled_tools.len() == 0 {
            return true;
        }
        list_contains(&self.enabled_tools, tool_name)
    }

    /// Whether the tool appears in `tools/list`.
    pub fn can_list_tool(&self, tool_name: &str) -> (b: bool)
        ensures
            b == self.tool_listed(tool_name@),
    {
        self.is_tool_enabled(tool_name) && (!self.read_only || is_read_only_tool(tool_name))
    }

    /// Some allowed command is a prefix of `command`.
    pub fn check_command_prefix(&self, command: &str) -> (b: bool)
        ensures
            b == self.command_allowed(command@),
    {
        let cc = chars_of(command);
        let mut i: usize = 0;
        while i < self.allowed_commands.len()
            invariant
                i <= self.allowed_commands@.len(),
                cc@ == command@,
                forall|j: int|
                    0 <= j < i ==> !starts_with(command@, #[trigger] self.allowed_commands@[j]@),
            decreases self.allowed_commands@.len() - i,
        {
            let ac = chars_of(self.allowed_commands[i].as_str());
            if starts_with_seq(cc.as_slice(), ac.as_slice()) {
                return true;
            }
            i = i + 1;
        }
        false
    }

    /// The allowlist names `command` exactly.
    pub fn check_command_in_allowlist(&self, command: &str) -> (r: Result<(), McpError>)
        ensures
            r is Ok <==> strs(self.allowed_commands@).contains(command@),
            r matches Err(McpError::PolicyDenied { reason }) ==> reason@ == "Command '"@
                + command@ + "' is not in allowlist"@,
            r is Err ==> r matches Err(McpError::PolicyDenied { .. }),
    {
        if list_contains(&self.allowed_commands, command) {
            Ok(())
        } else {
            Err(
                McpError::PolicyDenied {
                    reason: concat3(
                        "Command '",
                        chars_of(command).as_slice(),
                        "' is not in allowlist",
                    ),
                },
            )
        }
    }

    /// Decide a call of `tool_name` with `args`: refuse it, or permit it
    /// once the returned paths pass validation.
    pub fn check_request(&self, tool_name: &str, args: &Json) -> (r: Result<Vec<PathCheck>, McpError>)
        ensures
            self.check_result(tool_name@, *args, r),
    {
        let nc = chars_of(tool_name);
        if !self.is_tool_enabled(tool_name) {
            return Err(
                McpError::PolicyDenied {
                    reason: concat3("Tool '", nc.as_slice(), "' is disabled by policy"),
                },
            );
        }
        if self.read_only && !is_read_only_tool(tool_name) {
            return Err(
                McpError::PolicyDenied {
                    reason: concat3("Tool '", nc.as_slice(), "' is not available in read-only mode"),
                },
            );
        }
        if eq_str(tool_name, "read_env") {
            if self.allow_env_access {
                return Ok(Vec::new());
            } else {
                return Err(McpError::policy_denied("Environment variable access is disabled"));
            }
        }
        if eq_str(tool_name, "check_command") {
            return match args.get_str("command") {
                None => Err(
                    McpError::invalid_arguments(
                        "check_command",
                        "Missing or invalid 'command' field",
                    ),
                ),
                Some(c) => {
                    if self.check_command_prefix(c.as_str()) {
                        Ok(Vec::new())
                    } else {
                        Err(
                            McpError::PolicyDenied {
                                reason: concat3(
                                    "Command '",
                                    chars_of(c.as_str()).as_slice(),
                                    "' is not in allowlist",
                                ),
                            },
                        )
                    }
                },
            };
        }
        if eq_str(tool_name, "cargo_check") || eq_str(tool_name, "cargo_build") || eq_str(
            tool_name,
            "cargo_test",
        ) || eq_str(tool_name, "workspace_info") {
            if !self.allow_cargo_operations {
                return Err(McpError::policy_denied("Cargo operations are disabled"));
            }
            return Ok(optional_path(args));
        }
        if eq_str(tool_name, "grep_project") || eq_str(tool_name, "find_files") {
            return Ok(optional_path(args));
        }
        let field = path_field_of(tool_name);
        if let Some(f) = field {
            return match args.get_str(f) {
                None => Err(
                    McpError::InvalidArguments {
                        tool_name: crate::text::string_from("file_access"),
                        details: concat3("Missing or invalid '", chars_of(f).as_slice(), "' field"),
                    },
                ),
                Some(p) => {
                    let limit = eq_str(f, "path");
                    let mut v: Vec<PathCheck> = Vec::new();
                    v.push(PathCheck::Given { path: p, limit_size: limit });
                    Ok(v)
                },
            };
        }
        if eq_str(tool_name, "just_run") {
            return match self.check_command_in_allowlist("just") {
                Ok(()) => Ok(Vec::new()),
                Err(e) => Err(e),
            };
        }
        if eq_str(tool_name, "say_hello") || eq_str(tool_name, "system_info") || eq_str(
            tool_name,
            "health",
        ) {
            return Ok(Vec::new());
        }
        Err(
            McpError::PolicyDenied {
                reason: crate::text::concat2("Unknown tool: ", nc.as_slice()),
            },
        )
    }

    /// Add an allowed path.
    pub fn add_allowed_path(&mut self, path: String)
        ensures
            final(self).allowed_paths@ == old(self).allowed_paths@.push(path),
            final(self).denied_paths@ == old(self).denied_paths@,
            final(self).max_file_size == old(self).max_file_size,
            final(self).allowed_commands@ == old(self).allowed_commands@,
            final(self).allow_env_access == old(self).allow_env_access,
            final(self).allow_cargo_operations == old(self).allow_cargo_operations,
            final(self).read_only == old(self).read_only,
            final(self).enabled_tools@ == old(self).enabled_tools@,
            final(self).disabled_tools@ == old(self).disabled_tools@,
    {
        self.allowed_paths.push(path);
    }

    /// Add a denied path.
    pub fn add_denied_path(&mut self, path: String)
        ensures
            final(self).denied_paths@ == old(self).denied_paths@.push(path),
            final(self).allowed_paths@ == old(self).allowed_paths@,
            final(self).max_file_size == old(self).max_file_size,
            final(self).allowed_commands@ == old(self).allowed_commands@,
            final(self).allow_env_access == old(self).allow_env_access,
            final(self).allow_cargo_operations == old(self).allow_cargo_operations,
            final(self).read_only == old(self).read_only,
            final(self).enabled_tools@ == old(self).enabled_tools@,
            final(self).disabled_tools@ == old(self).disabled_tools@,
    {
        self.denied_paths.push(path);
    }

    /// Set maximum file size.
    pub fn set_max_file_size(&mut self, size: u64)
        ensures
            final(self).max_file_size == size,
            final(self).allowed_paths@ == old(self).allowed_paths@,
            final(self).denied_paths@ == old(self).denied_paths@,
            final(self).allowed_commands@ == old(self).allowed_commands@,
            final(self).allow_env_access == old(self).allow_env_access,
            final(self).allow_cargo_operations == old(self).allow_cargo_operations,
            final(self).read_only == old(self).read_only,
            final(self).enabled_tools@ == old(self).enabled_tools@,
            final(self).disabled_tools@ == old(self).disabled_tools@,
    {
        self.max_file_size = size;
    }

    /// Add an allowed command.
    pub fn add_allowed_command(&mut self, command: String)
        ensures
            final(self).allowed_commands@ == old(self).allowed_commands@.push(command),
            final(self).allowed_paths@ == old(self).allowed_paths@,
            final(self).denied_paths@ == old(self).denied_paths@,
            final(self).max_file_size == old(self).max_file_size,
            final(self).allow_env_access == old(self).allow_env_access,
            final(self).allow_cargo_operations == old(self).allow_cargo_operations,
            final(self).read_only == old(self).read_only,
            final(self).enabled_tools@ == old(self).enabled_tools@,
            final(self).disabled_tools@ == old(self).disabled_tools@,
    {
        self.allowed_commands.push(command);
    }

    /// Validate a resolved `target` against this policy. `denied_resolved[i]`
    /// and `allowed_resolved[j]` are the resolved forms of `denied_paths[i]`
    /// and `allowed_paths[j]`; denied paths take precedence.
    pub fn validate_path(
        &self,
        target: &str,
        denied_resolved: &Vec<String>,
        allowed_resolved: &Vec<String>,
    ) -> (r: Result<String, McpError>)
        requires
            denied_resolved@.len() == self.denied_paths@.len(),
            allowed_resolved@.len() == self.allowed_paths@.len(),
        ensures
            match first_prefix(target@, strs(denied_resolved@)) {
                Some(i) => r matches Err(McpError::SecurityViolation { details }) && details@
                    == "Access denied to path: "@ + target@ + " (matches denied pattern: "@
                    + self.denied_paths@[i]@ + ")"@,
                None => if first_prefix(target@, strs(allowed_resolved@)) is Some {
                    r matches Ok(p) && p@ == target@
                } else {
                    r matches Err(McpError::SecurityViolation { details }) && details@
                        == "Access denied to path: "@ + target@ + " (not in allowlist)"@
                },
            },
    {
        judge_path(target, &self.denied_paths, denied_resolved, allowed_resolved)
    }

    /// Whether a resolved `target` passes `validate_path`.
    pub fn is_path_allowed(
        &self,
        target: &str,
        denied_resolved: &Vec<String>,
        allowed_resolved: &Vec<String>,
    ) -> (b: bool)
        requires
            denied_resolved@.len() == self.denied_paths@.len(),
            allowed_resolved@.len() == self.allowed_paths@.len(),
        ensures
            b == (first_prefix(target@, strs(denied_resolved@)) is None && first_prefix(
                target@,
                strs(allowed_resolved@),
            ) is Some),
    {
        self.validate_path(target, denied_resolved, allowed_resolved).is_ok()
    }

    /// Refuse a file read whose size exceeds `max_file_size`.
    pub fn check_file_size(&self, size: u64) -> (r: Result<(), McpError>)
        ensures
            size <= self.max_file_size ==> r is Ok,
            size > self.max_file_size ==> (r matches Err(McpError::PolicyDenied { reason })
                && reason@ == "File size ("@ + dec(size as nat) + " bytes) exceeds limit ("@
                + dec(self.max_file_size as nat) + " bytes)"@),
    {
        if size <= self.max_file_size {
            return Ok(());
        }
        let mut msg = chars_of("File size (");
        extend(&mut msg, decimal(size).as_slice());
        extend_str(&mut msg, " bytes) exceeds limit (");
        extend(&mut msg, decimal(self.max_file_size).as_slice());
        extend_str(&mut msg, " bytes)");
        Err(McpError::PolicyDenied { reason: string_of(msg.as_slice()) })
    }
}

/// Whether the tool stays available in read-only mode.
pub fn is_read_only_tool(tool_name: &str) -> (b: bool)
    ensures
        b == read_only_tool(tool_name@),
{
    eq_str(tool_name, "say_hello") || eq_str(tool_name, "health") || eq_str(tool_name, "read_file")
        || eq_str(tool_name, "list_directory") || eq_str(tool_name, "grep_file") || eq_str(
        tool_name,
        "file_stats",
    ) || eq_str(tool_name, "grep_project") || eq_str(tool_name, "find_files") || eq_str(
        tool_name,
        "read_toml",
    ) || eq_str(tool_name, "json_query") || eq_str(tool_name, "markdown_query") || eq_str(
        tool_name,
        "migration_list",
    )
}

/// The argument naming the file a tool reads, for tools that need one.
fn path_field_of(tool_name: &str) -> (r: Option<&'static str>)
    ensures
        match r {
            Some(f) => required_path_field(tool_name@) == Some(f@),
            None => required_path_field(tool_name@) is None,
        },
{
    if eq_str(tool_name, "read_file") || eq_str(tool_name, "list_directory") || eq_str(
        tool_name,
        "grep_file",
    ) || eq_str(tool_name, "file_stats") || eq_str(tool_name, "read_toml") || eq_str(
        tool_name,
        "json_query",
    ) || eq_str(tool_name, "markdown_query") {
        Some("path")
    } else if eq_str(tool_name, "sqlite_query") || eq_str(tool_name, "sqlite_schema") {
        Some("db_path")
    } else if eq_str(tool_name, "migration_list") {
        Some("migrations_dir")
    } else {
        None
    }
}

/// The optional `path` argument, or the workspace root, as the one path to check.
fn optional_path(args: &Json) -> (v: Vec<PathCheck>)
    ensures
        optional_path_check(Ok(v), *args),
{
    let mut v: Vec<PathCheck> = Vec::new();
    match args.get_str("path") {
        Some(p) => v.push(PathCheck::Given { path: p, limit_size: false }),
        None => v.push(PathCheck::WorkspaceRoot),
    }
    v
}

/// Law: a tool that `tools/list` hides is refused by policy when called,
/// whatever its arguments.
pub proof fn law_hidden_tools_refused(p: Policy, name: Seq<char>, args: Json, r: Result<Vec<PathCheck>, McpError>)
    requires
        !p.tool_listed(name),
        p.check_result(name, args, r),
    ensures
        r matches Err(McpError::PolicyDenied { .. }),
{
}

/// Adding a denied path never grants access: a target that passes the
/// policy after the denial (`old` with `added` appended to its denied paths,
/// judged under the same resolutions of the other paths) passed it before;
/// and the added path itself no longer passes.
pub proof fn law_denial_never_grants(
    old_denied: Seq<Seq<char>>,
    added: Seq<char>,
    allowed: Seq<Seq<char>>,
    target: Seq<char>,
)
    ensures
        (first_prefix(target, old_denied.push(added)) is None && first_prefix(target, allowed) is Some) ==> (
        first_prefix(target, old_denied) is None && first_prefix(target, allowed) is Some),
        first_prefix(added, old_denied.push(added)) is Some,
{
    assert(old_denied.push(added).drop_last() =~= old_denied);
    assert(old_denied.push(added).last() == added);
    let c = crate::mcp::workspace::components(added);
    assert(c.take(c.len() as int) =~= c);
    assert(crate::mcp::workspace::path_starts_with(added, added));
}

impl Default for Policy {
    /// The same policy as [`Policy::new`].
    fn default() -> (p: Policy)
        ensures
            p.is_default(),
    {
        Policy::new()
    }
}

/// The read-only surface keeps exactly the tools that only read:
/// `say_hello`, `health`, `read_file`, `list_directory`, `grep_file`,
/// `file_stats`, `grep_project`, `find_files`, `read_toml`, `json_query`,
/// `markdown_query` and `migration_list`; and a policy lists a tool exactly
/// when it is enabled and, in read-only mode, is one of these.
pub proof fn law_read_only_surface(p: Policy, name: Seq<char>)
    ensures
        read_only_tool(name) <==> seq![
            "say_hello"@,
            "health"@,
            "read_file"@,
            "list_directory"@,
            "grep_file"@,
            "file_stats"@,
            "grep_project"@,
            "find_files"@,
            "read_toml"@,
            "json_query"@,
            "markdown_query"@,
            "migration_list"@,
        ].contains(name),
        p.tool_listed(name) <==> p.tool_enabled(name) && (!p.read_only || seq![
            "say_hello"@,
            "health"@,
            "read_file"@,
            "list_directory"@,
            "grep_file"@,
            "file_stats"@,
            "grep_project"@,
            "find_files"@,
            "read_toml"@,
            "json_query"@,
            "markdown_query"@,
            "migration_list"@,
        ].contains(name)),
{
    let s = seq![
        "say_hello"@,
        "health"@,
        "read_file"@,
        "list_directory"@,
        "grep_file"@,
        "file_stats"@,
        "grep_project"@,
        "find_files"@,
        "read_toml"@,
        "json_query"@,
        "markdown_query"@,
        "migration_list"@,
    ];
    if read_only_tool(name) {
        if name == "say_hello"@ { assert(s[0] == name); }
        else if name == "health"@ { assert(s[1] == name); }
        else if name == "read_file"@ { assert(s[2] == name); }
        else if name == "list_directory"@ { assert(s[3] == name); }
        else if name == "grep_file"@ { assert(s[4] == name); }
        else if name == "file_stats"@ { assert(s[5] == name); }
        else if name == "grep_project"@ { assert(s[6] == name); }
        else if name == "find_files"@ { assert(s[7] == name); }
        else if name == "read_toml"@ { assert(s[8] == name); }
        else if name == "json_query"@ { assert(s[9] == name); }
        else if name == "markdown_query"@ { assert(s[10] == name); }
        else { assert(s[11] == name); }
    }
    if s.contains(name) {
        let i = choose|i: int| 0 <= i < s.len() && s[i] == name;
        assert(0 <= i < 12);
    }
}

} // verus!
