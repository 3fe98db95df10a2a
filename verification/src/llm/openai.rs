//! Mapping between the library's messages and a chat-completions API:
//! request messages, the stop reason, and the errors of a failed call.
use vstd::prelude::*;
use crate::json::Json;
use crate::llm::types::{message_text, ChatMessage, LlmError, MessageContent, MessageRole, StopReason};
use crate::text::{chars_of, eq_str, extend, extend_str, parse_unsigned, parse_unsigned_max, string_from, string_of};

verus! {

/// The model used when a request names none.
pub open spec fn default_model() -> Seq<char> {
    "gpt-4o-mini"@
}

/// A message as the API takes it; its content is always a string.
#[derive(Debug)]
pub struct ApiMessage {
    pub role: String,
    pub content: String,
    pub tool_call_id: Option<String>,
}

/// The API's name for a role.
pub open spec fn role_name(r: MessageRole) -> Seq<char> {
    match r {
        MessageRole::User => "user"@,
        MessageRole::Assistant => "assistant"@,
        MessageRole::System => "system"@,
    }
}

/// `a` is the API form of `m`: the role's name; a text as it is; a tool
/// result as its content, marked `[ERROR] ` when it is an error, with the
/// id of the call it answers.
pub open spec fn api_form(a: ApiMessage, m: ChatMessage) -> bool {
    &&& a.role@ == role_name(m.role)
    &&& match m.content {
        MessageContent::Text { text } => a.content@ == text@ && a.tool_call_id is None,
        MessageContent::ToolResult { tool_use_id, content, is_error } => {
            &&& a.content@ == if is_error {
                "[ERROR] "@ + content@
            } else {
                content@
            }
            &&& a.tool_call_id matches Some(id) && id@ == tool_use_id@
        },
    }
}

/// The API form of a message.
pub fn message_to_api(msg: &ChatMessage) -> (a: ApiMessage)
    ensures
        api_form(a, *msg),
{
    let role = match msg.role {
        MessageRole::User => "user",
        MessageRole::Assistant => "assistant",
        MessageRole::System => "system",
    };
    match &msg.content {
        MessageContent::Text { text } => ApiMessage {
            role: string_from(role),
            content: text.clone(),
            tool_call_id: None,
        },
        MessageContent::ToolResult { tool_use_id, content, is_error } => {
            let c = if *is_error {
                let mut t = chars_of("[ERROR] ");
                extend_str(&mut t, content.as_str());
                string_of(t.as_slice())
            } else {
                content.clone()
            };
            ApiMessage { role: string_from(role), content: c, tool_call_id: Some(tool_use_id.clone()) }
        },
    }
}

/// The messages of a request: the system prompt first when there is one,
/// then each message in API form.
pub fn api_messages(system: &Option<String>, messages: &Vec<ChatMessage>) -> (r: Vec<ApiMessage>)
    ensures
        ({
            let off: int = if system is Some {
                1
            } else {
                0
            };
            &&& r@.len() == messages@.len() + off
            &&& system matches Some(s) ==> r@[0].role@ == "system"@ && r@[0].content@ == s@
                && r@[0].tool_call_id is None
            &&& forall|i: int| 0 <= i < messages@.len() ==> api_form(#[trigger] r@[i + off], messages@[i])
        }),
{
    let mut out: Vec<ApiMessage> = Vec::new();
    let off: usize = match system {
        Some(s) => {
            out.push(ApiMessage { role: string_from("system"), content: s.clone(), tool_call_id: None });
            1
        },
        None => 0,
    };
    let mut i: usize = 0;
    while i < messages.len()
        invariant
            i <= messages@.len(),
            out@.len() == i + off,
            off == (if system is Some {
                1usize
            } else {
                0usize
            }),
            system matches Some(s) ==> out@[0].role@ == "system"@ && out@[0].content@ == s@
                && out@[0].tool_call_id is None,
            forall|k: int| 0 <= k < i ==> api_form(#[trigger] out@[k + off], messages@[k]),
        decreases messages@.len() - i,
    {
        out.push(message_to_api(&messages[i]));
        proof {
            assert(out@[i + off] == out@.last());
        }
        i = i + 1;
    }
    out
}

/// The model to ask: the requested one, or the default when none is named.
pub fn model_for(requested: &str) -> (m: String)
    ensures
        m@ == if requested@.len() == 0 {
            default_model()
        } else {
            requested@
        },
{
    if chars_of(requested).len() == 0 {
        string_from("gpt-4o-mini")
    } else {
        string_from(requested)
    }
}

/// The stop reason for the API's `finish_reason`.
pub fn stop_reason_for(finish_reason: Option<&str>) -> (s: StopReason)
    ensures
        match finish_reason {
            None => s is EndTurn,
            Some(f) => if f@ == "stop"@ {
                s is EndTurn
            } else if f@ == "length"@ {
                s is MaxTokens
            } else if f@ == "tool_calls"@ {
                s is ToolUse
            } else if f@ == "content_filter"@ {
                s is StopSequence
            } else {
                s matches StopReason::Other(o) && o@ == f@
            },
        },
{
    match finish_reason {
        None => StopReason::EndTurn,
        Some(f) => if eq_str(f, "stop") {
            StopReason::EndTurn
        } else if eq_str(f, "length") {
            StopReason::MaxTokens
        } else if eq_str(f, "tool_calls") {
            StopReason::ToolUse
        } else if eq_str(f, "content_filter") {
            StopReason::StopSequence
        } else {
            StopReason::Other(string_from(f))
        },
    }
}

/// The error for a rate-limited call: the `retry-after` header's seconds
/// when it holds a number, else 5.
pub fn rate_limited(retry_after: Option<&str>) -> (e: LlmError)
    ensures
        e matches LlmError::RateLimited { retry_after_secs } && retry_after_secs == match retry_after {
            Some(h) => match parse_unsigned(h@, u64::MAX as nat) {
                Some(n) => n,
                None => 5,
            },
            None => 5,
        },
{
    let secs: u64 = match retry_after {
        Some(h) => match parse_unsigned_max(chars_of(h).as_slice(), u64::MAX) {
            Some(n) => n,
            None => 5,
        },
        None => 5,
    };
    LlmError::RateLimited { retry_after_secs: secs }
}

/// The error for a failed call: `[kind] message` from an API error body,
/// else the body's text.
pub fn upstream_error(api_error: Option<(&str, &str)>, body: &str) -> (e: LlmError)
    ensures
        e matches LlmError::Upstream { message } && message@ == match api_error {
            Some(k) => "["@ + k.0@ + "] "@ + k.1@,
            None => body@,
        },
{
    match api_error {
        Some((kind, message)) => {
            let mut t = chars_of("[");
            extend_str(&mut t, kind);
            extend_str(&mut t, "] ");
            extend_str(&mut t, message);
            LlmError::Upstream { message: string_of(t.as_slice()) }
        },
        None => LlmError::Upstream { message: string_from(body) },
    }
}

/// The stop reason that a `finish_reason` names.
pub open spec fn stop_reason_named(s: StopReason, finish_reason: Option<Seq<char>>) -> bool {
    match finish_reason {
        None => s is EndTurn,
        Some(f) => if f == "stop"@ {
            s is EndTurn
        } else if f == "length"@ {
            s is MaxTokens
        } else if f == "tool_calls"@ {
            s is ToolUse
        } else if f == "content_filter"@ {
            s is StopSequence
        } else {
            s matches StopReason::Other(o) && o@ == f
        },
    }
}

/// A tool call the model asked for: its id, the tool's name and its
/// arguments.
#[derive(Debug)]
pub struct ToolCall {
    pub id: String,
    pub name: String,
    pub arguments: Json,
}

/// A tool call as the reply carries it: id, name, and its argument text
/// parsed as JSON (`None` when it is not JSON).
#[derive(Debug)]
pub struct ToolCallParts {
    pub id: String,
    pub name: String,
    pub arguments: Option<Json>,
}

/// The first choice of a reply: its text, its tool calls and its
/// `finish_reason`.
#[derive(Debug)]
pub struct ChoiceParts {
    pub content: Option<String>,
    pub tool_calls: Option<Vec<ToolCallParts>>,
    pub finish_reason: Option<String>,
}

/// A finished generation.
#[derive(Debug)]
pub struct LlmResponse {
    pub content: String,
    pub tool_calls: Vec<ToolCall>,
    pub input_tokens: u32,
    pub output_tokens: u32,
    pub model: String,
    pub stop_reason: StopReason,
}

/// `t` is the call `p` with unparsable arguments read as `null`.
pub open spec fn call_from(t: ToolCall, p: ToolCallParts) -> bool {
    &&& t.id@ == p.id@
    &&& t.name@ == p.name@
    &&& match p.arguments {
        Some(a) => t.arguments == a,
        None => t.arguments is Null,
    }
}

/// The response of a successful reply from its first choice (`None` when
/// the reply has no choice), its token usage and the model that answered:
/// the choice's text (empty when it has none), its tool calls in order, the
/// stop reason its `finish_reason` names; a reply without choices is the
/// error `No choices in response`.
pub fn response_of(first: Option<ChoiceParts>, prompt_tokens: u32, completion_tokens: u32, model: String) -> (r:
    Result<LlmResponse, LlmError>)
    ensures
        match first {
            None => r matches Err(LlmError::Other(m)) && m@ == "No choices in response"@,
            Some(c) => r matches Ok(resp) && resp.content@ == match c.content {
                Some(t) => t@,
                None => Seq::<char>::empty(),
            } && resp.input_tokens == prompt_tokens && resp.output_tokens == completion_tokens && resp.model
                == model && stop_reason_named(
                resp.stop_reason,
                match c.finish_reason {
                    Some(f) => Some(f@),
                    None => None,
                },
            ) && match c.tool_calls {
                Some(ps) => resp.tool_calls@.len() == ps@.len() && forall|i: int|
                    0 <= i < ps@.len() ==> call_from(#[trigger] resp.tool_calls@[i], ps@[i]),
                None => resp.tool_calls@.len() == 0,
            },
        },
{
    match first {
        None => Err(LlmError::Other(string_from("No choices in response"))),
        Some(c) => {
            let content = match c.content {
                Some(t) => t,
                None => String::new(),
            };
            let mut calls: Vec<ToolCall> = Vec::new();
            match c.tool_calls {
                Some(ps) => {
                    let mut ps = ps;
                    let ghost orig = ps@;
                    let mut rev: Vec<ToolCallParts> = Vec::new();
                    while ps.len() > 0
                        invariant
                            rev@.len() + ps@.len() == orig.len(),
                            ps@ == orig.take(ps@.len() as int),
                            forall|k: int| 0 <= k < rev@.len() ==> #[trigger] rev@[k] == orig[orig.len() - 1 - k],
                        decreases ps@.len(),
                    {
                        let p = ps.pop().unwrap();
                        rev.push(p);
                    }
                    while rev.len() > 0
                        invariant
                            calls@.len() + rev@.len() == orig.len(),
                            forall|k: int| 0 <= k < rev@.len() ==> #[trigger] rev@[k] == orig[orig.len() - 1 - k],
                            forall|i: int| 0 <= i < calls@.len() ==> call_from(#[trigger] calls@[i], orig[i]),
                        decreases rev@.len(),
                    {
                        let p = rev.pop().unwrap();
                        let arguments = match p.arguments {
                            Some(a) => a,
                            None => Json::Null,
                        };
                        calls.push(ToolCall { id: p.id, name: p.name, arguments });
                    }
                },
                None => {},
            }
            let stop_reason = match &c.finish_reason {
                Some(f) => stop_reason_for(Some(f.as_str())),
                None => stop_reason_for(None),
            };
            Ok(LlmResponse {
                content,
                tool_calls: calls,
                input_tokens: prompt_tokens,
                output_tokens: completion_tokens,
                model,
                stop_reason,
            })
        },
    }
}

} // verus!
