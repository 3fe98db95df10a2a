//! Messages exchanged with a model, and the errors of a provider call.
use vstd::prelude::*;
use crate::text::{chars_of, dec, decimal, extend, extend_str, string_from, string_of};

verus! {

/// Content of a chat message: plain text or a tool result.
#[derive(Debug)]
pub enum MessageContent {
    Text { text: String },
    ToolResult { tool_use_id: String, content: String, is_error: bool },
}

/// Role of a message participant.
#[derive(Debug, Clone, Copy, PartialEq, Eq, Structural)]
pub enum MessageRole {
    System,
    User,
    Assistant,
}

/// A single message in a conversation.
#[derive(Debug)]
pub struct ChatMessage {
    pub role: MessageRole,
    pub content: MessageContent,
}

/// The text a message carries: its text, or a tool result's content.
pub open spec fn message_text(m: ChatMessage) -> Seq<char> {
    match m.content {
        MessageContent::Text { text } => text@,
        MessageContent::ToolResult { content, .. } => content@,
    }
}

/// A message is `role` saying `text`.
pub open spec fn says(m: ChatMessage, role: MessageRole, text: Seq<char>) -> bool {
    m.role == role && (m.content matches MessageContent::Text { text: t } && t@ == text)
}

impl ChatMessage {
    /// A text message from `role`.
    pub fn text(role: MessageRole, content: &str) -> (m: ChatMessage)
        ensures
            says(m, role, content@),
    {
        ChatMessage { role, content: MessageContent::Text { text: string_from(content) } }
    }

    /// A user-turn tool result.
    pub fn tool_result(tool_use_id: &str, content: &str, is_error: bool) -> (m: ChatMessage)
        ensures
            m.role == MessageRole::User,
            m.content matches MessageContent::ToolResult { tool_use_id: id, content: c, is_error: e }
                && id@ == tool_use_id@ && c@ == content@ && e == is_error,
    {
        ChatMessage {
            role: MessageRole::User,
            content: MessageContent::ToolResult {
                tool_use_id: string_from(tool_use_id),
                content: string_from(content),
                is_error,
            },
        }
    }

    /// The message's text, or its tool result's content.
    pub fn text_content(&self) -> (r: &str)
        ensures
            r@ == message_text(*self),
    {
        match &self.content {
            MessageContent::Text { text } => text.as_str(),
            MessageContent::ToolResult { content, .. } => content.as_str(),
        }
    }

    /// A copy of the message.
    pub fn duplicate(&self) -> (m: ChatMessage)
        ensures
            m.role == self.role,
            match (m.content, self.content) {
                (MessageContent::Text { text: a }, MessageContent::Text { text: b }) => a@ == b@,
                (
                    MessageContent::ToolResult { tool_use_id: a, content: b, is_error: c },
                    MessageContent::ToolResult { tool_use_id: x, content: y, is_error: z },
                ) => a@ == x@ && b@ == y@ && c == z,
                _ => false,
            },
    {
        let content = match &self.content {
            MessageContent::Text { text } => MessageContent::Text { text: text.clone() },
            MessageContent::ToolResult { tool_use_id, content, is_error } => MessageContent::ToolResult {
                tool_use_id: tool_use_id.clone(),
                content: content.clone(),
                is_error: *is_error,
            },
        };
        ChatMessage { role: self.role, content }
    }
}

/// Why the model stopped generating.
#[derive(Debug)]
pub enum StopReason {
    /// A natural stopping point.
    EndTurn,
    /// The output token limit was hit.
    MaxTokens,
    /// The model invoked a tool.
    ToolUse,
    /// A stop sequence was matched.
    StopSequence,
    /// A stop reason the provider named otherwise.
    Other(String),
}

/// The result of running one tool call.
#[derive(Debug)]
pub struct ToolResult {
    pub name: String,
    pub content: String,
    pub is_error: bool,
}

/// Everything that can go wrong in a provider call.
#[derive(Debug)]
pub enum LlmError {
    RateLimited { retry_after_secs: u64 },
    Upstream { message: String },
    ContextTooLarge { token_count: u32, limit: u32 },
    GroundingViolation { reason: String },
    Network(String),
    Parse(String),
    Other(String),
}

/// The text shown for an error.
pub open spec fn error_text(e: LlmError) -> Seq<char> {
    match e {
        LlmError::RateLimited { retry_after_secs } => "provider rate limited, retry after "@ + dec(
            retry_after_secs as nat,
        ) + "s"@,
        LlmError::Upstream { message } => "upstream provider error: "@ + message@,
        LlmError::ContextTooLarge { token_count, limit } => "context window exceeded: "@ + dec(
            token_count as nat,
        ) + " tokens > "@ + dec(limit as nat),
        LlmError::GroundingViolation { reason } => "grounding contract violation: "@ + reason@,
        LlmError::Network(m) => "network error: "@ + m@,
        LlmError::Parse(m) => "response parse error: "@ + m@,
        LlmError::Other(m) => "llm error: "@ + m@,
    }
}

impl LlmError {
    /// The text shown for the error.
    pub fn message(&self) -> (r: String)
        ensures
            r@ == error_text(*self),
    {
        let mut out: Vec<char> = Vec::new();
        match self {
            LlmError::RateLimited { retry_after_secs } => {
                extend_str(&mut out, "provider rate limited, retry after ");
                extend(&mut out, decimal(*retry_after_secs).as_slice());
                extend_str(&mut out, "s");
            },
            LlmError::Upstream { message } => {
                extend_str(&mut out, "upstream provider error: ");
                extend_str(&mut out, message.as_str());
            },
            LlmError::ContextTooLarge { token_count, limit } => {
                extend_str(&mut out, "context window exceeded: ");
                extend(&mut out, decimal(*token_count as u64).as_slice());
                extend_str(&mut out, " tokens > ");
                extend(&mut out, decimal(*limit as u64).as_slice());
            },
            LlmError::GroundingViolation { reason } => {
                extend_str(&mut out, "grounding contract violation: ");
                extend_str(&mut out, reason.as_str());
            },
            LlmError::Network(m) => {
                extend_str(&mut out, "network error: ");
                extend_str(&mut out, m.as_str());
            },
            LlmError::Parse(m) => {
                extend_str(&mut out, "response parse error: ");
                extend_str(&mut out, m.as_str());
            },
            LlmError::Other(m) => {
                extend_str(&mut out, "llm error: ");
                extend_str(&mut out, m.as_str());
            },
        }
        proof {
            assert(out@ =~= error_text(*self));
        }
        string_of(out.as_slice())
    }
}

} // verus!
