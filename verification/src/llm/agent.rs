//! The decisions of the agent loop: whether to ask the model again, what a
//! response means for the loop, and the running token totals. The caller
//! performs the model and tool calls and reports back.
use vstd::prelude::*;
use crate::llm::types::{says, ChatMessage, LlmError, MessageRole, StopReason};
use crate::text::{chars_of, dec, decimal, extend, extend_str, string_of};

verus! {

/// The state of an agent loop between model calls.
#[derive(Debug)]
pub struct AgentLoop {
    /// Model calls answered so far.
    pub turn: usize,
    pub max_turns: usize,
    pub token_budget: u32,
    pub total_input: u32,
    pub total_output: u32,
}

/// What to do before a turn.
#[derive(Debug)]
pub enum Step {
    /// Ask the model.
    Generate,
    /// Stop: the turns or the token budget are used up.
    Exhausted(LlmError),
}

/// What a model response means for the loop.
#[derive(Debug, Clone, Copy, PartialEq, Eq, Structural)]
pub enum Next {
    /// The model is done; the answer took this many turns.
    Finish { turns: usize },
    /// Run the requested tools, then take the next turn.
    RunTools,
    /// The model stopped for a reason the loop does not handle.
    Stop,
}

/// The error of a loop that ran out of turns or budget.
pub open spec fn exhausted_text(max_turns: nat) -> Seq<char> {
    "agent loop exhausted "@ + dec(max_turns) + " turns without EndTurn"@
}

/// The error for a loop of `max_turns` turns that ended without an answer.
pub fn exhausted_error(max_turns: usize) -> (e: LlmError)
    ensures
        e matches LlmError::Other(m) && m@ == exhausted_text(max_turns as nat),
{
    let mut m = chars_of("agent loop exhausted ");
    extend(&mut m, decimal(max_turns as u64).as_slice());
    extend_str(&mut m, " turns without EndTurn");
    LlmError::Other(string_of(m.as_slice()))
}

impl AgentLoop {
    /// The state before the first turn.
    pub fn new(max_turns: usize, token_budget: u32) -> (s: AgentLoop)
        ensures
            s.turn == 0 && s.max_turns == max_turns && s.token_budget == token_budget,
            s.total_input == 0 && s.total_output == 0,
    {
        AgentLoop { turn: 0, max_turns, token_budget, total_input: 0, total_output: 0 }
    }

    /// Ask the model again while turns remain and the tokens used stay
    /// below the budget.
    pub fn before_turn(&self) -> (s: Step)
        requires
            self.total_input + self.total_output <= u32::MAX,
        ensures
            (self.turn < self.max_turns && self.total_input + self.total_output < self.token_budget)
                ==> s is Generate,
            !(self.turn < self.max_turns && self.total_input + self.total_output < self.token_budget)
                ==> (s matches Step::Exhausted(LlmError::Other(m)) && m@ == exhausted_text(
                self.max_turns as nat,
            )),
    {
        if self.turn >= self.max_turns || self.total_input + self.total_output >= self.token_budget {
            return Step::Exhausted(exhausted_error(self.max_turns));
        }
        Step::Generate
    }

    /// Count a response's tokens and decide: an answer ends the loop, a
    /// tool request runs the tools and moves to the next turn, anything
    /// else stops it.
    pub fn after_response(&mut self, input_tokens: u32, output_tokens: u32, stop: &StopReason) -> (n: Next)
        requires
            old(self).turn < old(self).max_turns,
            old(self).total_input + input_tokens <= u32::MAX,
            old(self).total_output + output_tokens <= u32::MAX,
        ensures
            final(self).total_input == old(self).total_input + input_tokens,
            final(self).total_output == old(self).total_output + output_tokens,
            final(self).max_turns == old(self).max_turns,
            final(self).token_budget == old(self).token_budget,
            final(self).turn <= final(self).max_turns,
            match stop {
                StopReason::EndTurn | StopReason::MaxTokens | StopReason::StopSequence => n
                    == Next::Finish { turns: (old(self).turn + 1) as usize } && final(self).turn
                    == old(self).turn,
                StopReason::ToolUse => n == Next::RunTools && final(self).turn == old(self).turn + 1,
                StopReason::Other(_) => n == Next::Stop && final(self).turn == old(self).turn,
            },
    {
        self.total_input = self.total_input + input_tokens;
        self.total_output = self.total_output + output_tokens;
        match stop {
            StopReason::EndTurn | StopReason::MaxTokens | StopReason::StopSequence => {
                Next::Finish { turns: self.turn + 1 }
            },
            StopReason::ToolUse => {
                self.turn = self.turn + 1;
                Next::RunTools
            },
            StopReason::Other(_) => Next::Stop,
        }
    }
}

/// The assistant message that records a tool-using response's text, if
/// it has any.
pub fn assistant_turn(content: &str) -> (m: Option<ChatMessage>)
    ensures
        content@.len() == 0 ==> m is None,
        content@.len() > 0 ==> (m matches Some(x) && says(x, MessageRole::Assistant, content@)),
{
    if chars_of(content).len() == 0 {
        None
    } else {
        Some(ChatMessage::text(MessageRole::Assistant, content))
    }
}

} // verus!
