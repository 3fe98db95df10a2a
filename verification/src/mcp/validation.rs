//! Checks on the shape of incoming JSON-RPC requests, and the error
//! response sent back for a failed one.
use vstd::prelude::*;
use crate::json::Json;
use crate::mcp::error::McpError;
use crate::text::{chars_of, dec, decimal, eq_str, extend, string_from, string_of};

verus! {

/// The request-shape error for a JSON-RPC request, if any: it must be an
/// object with `jsonrpc`, `method` and `id`, `jsonrpc` must be the string
/// `"2.0"` and `method` a string.
pub open spec fn request_problem(v: Json) -> Option<Seq<char>> {
    if !(v is Object) {
        Some("Request must be a JSON object"@)
    } else if v.spec_get("jsonrpc"@) is None {
        Some("Missing 'jsonrpc' field"@)
    } else if v.spec_get("method"@) is None {
        Some("Missing 'method' field"@)
    } else if v.spec_get("id"@) is None {
        Some("Missing 'id' field in request"@)
    } else if v.str_field("jsonrpc"@) != Some("2.0"@) {
        Some("Invalid 'jsonrpc' version, must be '2.0'"@)
    } else if !(v.spec_get("method"@).unwrap() is Str) {
        Some("'method' field must be a string"@)
    } else {
        None
    }
}

/// Validate the basic structure of a JSON-RPC request.
pub fn validate_jsonrpc_request(value: &Json) -> (r: Result<(), McpError>)
    ensures
        match request_problem(*value) {
            None => r is Ok,
            Some(p) => r matches Err(McpError::JsonRpcError { details }) && details@ == p,
        },
{
    let problem: Option<&str> = if !value.is_object() {
        Some("Request must be a JSON object")
    } else if value.get("jsonrpc").is_none() {
        Some("Missing 'jsonrpc' field")
    } else if value.get("method").is_none() {
        Some("Missing 'method' field")
    } else if value.get("id").is_none() {
        Some("Missing 'id' field in request")
    } else {
        match value.get_str("jsonrpc") {
            Some(v) => if !eq_str(v.as_str(), "2.0") {
                Some("Invalid 'jsonrpc' version, must be '2.0'")
            } else {
                match value.get("method") {
                    Some(m) => if !m.is_string() {
                        Some("'method' field must be a string")
                    } else {
                        None
                    },
                    None => None,
                }
            },
            None => Some("Invalid 'jsonrpc' version, must be '2.0'"),
        }
    };
    match problem {
        Some(p) => Err(McpError::JsonRpcError { details: string_from(p) }),
        None => Ok(()),
    }
}

/// Validate the parameters of a `tools/call` request: the tool's name and
/// its arguments (`null` when absent).
pub fn validate_tool_call_params(params: &Json) -> (r: Result<(String, Json), McpError>)
    ensures
        !(params is Object) ==> (r matches Err(McpError::InvalidArguments { tool_name, details })
            && tool_name@ == "unknown"@ && details@ == "Parameters must be a JSON object"@),
        params is Object && params.str_field("name"@) is None ==> (r matches Err(
            McpError::InvalidArguments { tool_name, details },
        ) && tool_name@ == "unknown"@ && details@ == "Missing or invalid 'name' parameter"@),
        params is Object && params.str_field("name"@) is Some ==> (r matches Ok(p) && Some(p.0@)
            == params.str_field("name"@) && match params.spec_get("arguments"@) {
            Some(a) => p.1.deep_eq(a),
            None => p.1 is Null,
        }),
{
    if !value_is_object(params) {
        return Err(
            McpError::InvalidArguments {
                tool_name: string_from("unknown"),
                details: string_from("Parameters must be a JSON object"),
            },
        );
    }
    let name = match params.get_str("name") {
        Some(n) => n,
        None => {
            return Err(
                McpError::InvalidArguments {
                    tool_name: string_from("unknown"),
                    details: string_from("Missing or invalid 'name' parameter"),
                },
            );
        },
    };
    let arguments = match params.get("arguments") {
        Some(a) => a.duplicate(),
        None => Json::Null,
    };
    Ok((name, arguments))
}

fn value_is_object(v: &Json) -> (b: bool)
    ensures
        b == (*v is Object),
{
    v.is_object()
}

/// Decimal text of a signed number.
pub open spec fn signed_dec(i: int) -> Seq<char> {
    if i < 0 {
        "-"@ + dec((-i) as nat)
    } else {
        dec(i as nat)
    }
}

/// Decimal text of an `i32`.
pub fn signed_decimal(i: i32) -> (r: Vec<char>)
    ensures
        r@ == signed_dec(i as int),
{
    if i < 0 {
        let mut out = chars_of("-");
        let m: i64 = -(i as i64);
        extend(&mut out, decimal(m as u64).as_slice());
        out
    } else {
        decimal(i as u64)
    }
}

/// The JSON-RPC error response for `error` answering request `id`.
pub fn create_error_response(id: Json, error: &McpError) -> (r: Json)
    ensures
        r matches Json::Object(es) && es@.len() == 3 && es@[0].0@ == "jsonrpc"@ && (es@[0].1 matches Json::Str(v) && v@
            == "2.0"@) && es@[1].0@ == "id"@ && es@[1].1 == id && es@[2].0@ == "error"@ && (
        es@[2].1 matches Json::Object(er) && er@.len() == 2 && er@[0].0@ == "code"@ && (er@[0].1 matches Json::Number(c)
            && c@ == signed_dec(error.code() as int)) && er@[1].0@ == "message"@ && (er@[1].1 matches Json::Str(m)
            && m@ == error.text())),
{
    let code = signed_decimal(error.error_code());
    let mut inner: Vec<(String, Json)> = Vec::new();
    inner.push((string_from("code"), Json::Number(string_of(code.as_slice()))));
    inner.push((string_from("message"), Json::Str(error.message())));
    let mut outer: Vec<(String, Json)> = Vec::new();
    outer.push((string_from("jsonrpc"), Json::Str(string_from("2.0"))));
    outer.push((string_from("id"), id));
    outer.push((string_from("error"), Json::Object(inner)));
    Json::Object(outer)
}

} // verus!
