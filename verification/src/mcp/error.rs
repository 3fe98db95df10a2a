//! Errors of the tool server and their JSON-RPC codes.
use vstd::prelude::*;
use crate::text::{concat2, concat4, chars_of, string_from};

verus! {

/// Every failure the server reports.
#[derive(Debug)]
pub enum McpError {
    /// Tool not found in registry.
    ToolNotFound { tool_name: String },
    /// Invalid arguments provided to tool.
    InvalidArguments { tool_name: String, details: String },
    /// Tool execution failed.
    ToolExecutionFailed { tool_name: String, details: String },
    /// Policy denied access.
    PolicyDenied { reason: String },
    /// File system operation failed.
    FileSystemError { details: String },
    /// Path traversal or security violation.
    SecurityViolation { details: String },
    /// JSON-RPC protocol error.
    JsonRpcError { details: String },
    /// JSON parsing/serialization error.
    JsonError { details: String },
    /// IO operation failed.
    IoError { details: String },
    /// Configuration error.
    ConfigError { details: String },
    /// Audit logging error.
    AuditError { details: String },
    /// Resource not found.
    ResourceNotFound { uri: String },
    /// Resource read error.
    ResourceReadError { uri: String, details: String },
    /// Generic internal error.
    InternalError { details: String },
}

/// Result type of server operations.
pub type McpResult<T> = Result<T, McpError>;

impl McpError {
    /// The JSON-RPC error code of each kind of error.
    pub open spec fn code(self) -> i32 {
        match self {
            McpError::ToolNotFound { .. } => -32601i32,
            McpError::InvalidArguments { .. } => -32602i32,
            McpError::JsonRpcError { .. } => -32600i32,
            McpError::JsonError { .. } => -32700i32,
            McpError::PolicyDenied { .. } => -32000i32,
            McpError::SecurityViolation { .. } => -32001i32,
            McpError::FileSystemError { .. } => -32002i32,
            _ => -32603i32,
        }
    }

    /// The human-readable message of the error.
    pub open spec fn text(self) -> Seq<char> {
        match self {
            McpError::ToolNotFound { tool_name } => "Tool not found: "@ + tool_name@,
            McpError::InvalidArguments { tool_name, details } => "Invalid arguments for tool '"@
                + tool_name@ + "': "@ + details@,
            McpError::ToolExecutionFailed { tool_name, details } => "Tool execution failed for '"@
                + tool_name@ + "': "@ + details@,
            McpError::PolicyDenied { reason } => "Policy denied access: "@ + reason@,
            McpError::FileSystemError { details } => "File system error: "@ + details@,
            McpError::SecurityViolation { details } => "Security violation: "@ + details@,
            McpError::JsonRpcError { details } => "JSON-RPC error: "@ + details@,
            McpError::JsonError { details } => "JSON error: "@ + details@,
            McpError::IoError { details } => "IO error: "@ + details@,
            McpError::ConfigError { details } => "Configuration error: "@ + details@,
            McpError::AuditError { details } => "Audit error: "@ + details@,
            McpError::ResourceNotFound { uri } => "Resource not found: "@ + uri@,
            McpError::ResourceReadError { uri, details } => "Resource read error for '"@ + uri@
                + "': "@ + details@,
            McpError::InternalError { details } => "Internal error: "@ + details@,
        }
    }

    /// Get the JSON-RPC error code for this error type.
    pub fn error_code(&self) -> (c: i32)
        ensures
            c == self.code(),
    {
        match self {
            McpError::ToolNotFound { .. } => -32601,
            McpError::InvalidArguments { .. } => -32602,
            McpError::JsonRpcError { .. } => -32600,
            McpError::JsonError { .. } => -32700,
            McpError::PolicyDenied { .. } => -32000,
            McpError::SecurityViolation { .. } => -32001,
            McpError::FileSystemError { .. } => -32002,
            _ => -32603,
        }
    }

    /// The message the error displays.
    pub fn message(&self) -> (r: String)
        ensures
            r@ == self.text(),
    {
        match self {
            McpError::ToolNotFound { tool_name } => concat2(
                "Tool not found: ",
                chars_of(tool_name.as_str()).as_slice(),
            ),
            McpError::InvalidArguments { tool_name, details } => concat4(
                "Invalid arguments for tool '",
                chars_of(tool_name.as_str()).as_slice(),
                "': ",
                chars_of(details.as_str()).as_slice(),
            ),
            McpError::ToolExecutionFailed { tool_name, details } => concat4(
                "Tool execution failed for '",
                chars_of(tool_name.as_str()).as_slice(),
                "': ",
                chars_of(details.as_str()).as_slice(),
            ),
            McpError::PolicyDenied { reason } => concat2(
                "Policy denied access: ",
                chars_of(reason.as_str()).as_slice(),
            ),
            McpError::FileSystemError { details } => concat2(
                "File system error: ",
                chars_of(details.as_str()).as_slice(),
            ),
            McpError::SecurityViolation { details } => concat2(
                "Security violation: ",
                chars_of(details.as_str()).as_slice(),
            ),
            McpError::JsonRpcError { details } => concat2(
                "JSON-RPC error: ",
                chars_of(details.as_str()).as_slice(),
            ),
            McpError::JsonError { details } => concat2(
                "JSON error: ",
                chars_of(details.as_str()).as_slice(),
            ),
            McpError::IoError { details } => concat2(
                "IO error: ",
                chars_of(details.as_str()).as_slice(),
            ),
            McpError::ConfigError { details } => concat2(
                "Configuration error: ",
                chars_of(details.as_str()).as_slice(),
            ),
            McpError::AuditError { details } => concat2(
                "Audit error: ",
                chars_of(details.as_str()).as_slice(),
            ),
            McpError::ResourceNotFound { uri } => concat2(
                "Resource not found: ",
                chars_of(uri.as_str()).as_slice(),
            ),
            McpError::ResourceReadError { uri, details } => concat4(
                "Resource read error for '",
                chars_of(uri.as_str()).as_slice(),
                "': ",
                chars_of(details.as_str()).as_slice(),
            ),
            McpError::InternalError { details } => concat2(
                "Internal error: ",
                chars_of(details.as_str()).as_slice(),
            ),
        }
    }

    /// A copy of the error.
    pub fn duplicate(&self) -> (r: McpError)
        ensures
            r.code() == self.code(),
            r.text() == self.text(),
    {
        match self {
            McpError::ToolNotFound { tool_name } => McpError::ToolNotFound {
                tool_name: tool_name.clone(),
            },
            McpError::InvalidArguments { tool_name, details } => McpError::InvalidArguments {
                tool_name: tool_name.clone(),
                details: details.clone(),
            },
            McpError::ToolExecutionFailed { tool_name, details } => McpError::ToolExecutionFailed {
                tool_name: tool_name.clone(),
                details: details.clone(),
            },
            McpError::PolicyDenied { reason } => McpError::PolicyDenied { reason: reason.clone() },
            McpError::FileSystemError { details } => McpError::FileSystemError {
                details: details.clone(),
            },
            McpError::SecurityViolation { details } => McpError::SecurityViolation {
                details: details.clone(),
            },
            McpError::JsonRpcError { details } => McpError::JsonRpcError {
                details: details.clone(),
            },
            McpError::JsonError { details } => McpError::JsonError { details: details.clone() },
            McpError::IoError { details } => McpError::IoError { details: details.clone() },
            McpError::ConfigError { details } => McpError::ConfigError { details: details.clone() },
            McpError::AuditError { details } => McpError::AuditError { details: details.clone() },
            McpError::ResourceNotFound { uri } => McpError::ResourceNotFound { uri: uri.clone() },
            McpError::ResourceReadError { uri, details } => McpError::ResourceReadError {
                uri: uri.clone(),
                details: details.clone(),
            },
            McpError::InternalError { details } => McpError::InternalError {
                details: details.clone(),
            },
        }
    }

    /// Create a ToolNotFound error.
    pub fn tool_not_found(tool_name: &str) -> (e: McpError)
        ensures
            e matches McpError::ToolNotFound { tool_name: t } && t@ == tool_name@,
    {
        McpError::ToolNotFound { tool_name: string_from(tool_name) }
    }

    /// Create an InvalidArguments error.
    pub fn invalid_arguments(tool_name: &str, details: &str) -> (e: McpError)
        ensures
            e matches McpError::InvalidArguments { tool_name: t, details: d } && t@ == tool_name@
                && d@ == details@,
    {
        McpError::InvalidArguments {
            tool_name: string_from(tool_name),
            details: string_from(details),
        }
    }

    /// Create a ToolExecutionFailed error.
    pub fn tool_execution_failed(tool_name: &str, details: &str) -> (e: McpError)
        ensures
            e matches McpError::ToolExecutionFailed { tool_name: t, details: d } && t@
                == tool_name@ && d@ == details@,
    {
        McpError::ToolExecutionFailed {
            tool_name: string_from(tool_name),
            details: string_from(details),
        }
    }

    /// Create a PolicyDenied error.
    pub fn policy_denied(reason: &str) -> (e: McpError)
        ensures
            e matches McpError::PolicyDenied { reason: r } && r@ == reason@,
    {
        McpError::PolicyDenied { reason: string_from(reason) }
    }

    /// Create a SecurityViolation error.
    pub fn security_violation(details: &str) -> (e: McpError)
        ensures
            e matches McpError::SecurityViolation { details: d } && d@ == details@,
    {
        McpError::SecurityViolation { details: string_from(details) }
    }

    /// Create a FileSystemError.
    pub fn file_system_error(details: &str) -> (e: McpError)
        ensures
            e matches McpError::FileSystemError { details: d } && d@ == details@,
    {
        McpError::FileSystemError { details: string_from(details) }
    }
}

} // verus!
