//! Result shapes of the JSON-RPC methods.
use vstd::prelude::*;

verus! {

/// The server's name and version.
#[derive(Debug)]
pub struct ServerInfo {
    pub name: String,
    pub version: String,
}

/// One item of a tool call's content.
#[derive(Debug)]
pub struct ContentItem {
    /// Always `"text"`.
    pub type_: String,
    pub text: String,
}

/// The result of a `tools/call`.
#[derive(Debug)]
pub struct ToolCallResult {
    pub content: Vec<ContentItem>,
}

impl ToolCallResult {
    /// A result holding the one text item `text`.
    pub fn text(text: String) -> (r: ToolCallResult)
        ensures
            r.content@.len() == 1,
            r.content@[0].type_@ == "text"@,
            r.content@[0].text == text,
    {
        let mut content: Vec<ContentItem> = Vec::new();
        content.push(ContentItem { type_: crate::text::string_from("text"), text });
        ToolCallResult { content }
    }
}

} // verus!
