//! Model-provider plumbing: messages, the grounding contract, the agent
//! loop's decisions and the mapping to and from a chat-completions API.

pub mod agent;
pub mod grounding;
pub mod openai;

pub mod types;
