//! The grounding contract: a generator may only rephrase or reorder the
//! whitelisted source strings, and the prompt says so.
use vstd::prelude::*;
use crate::llm::types::{says, ChatMessage, LlmError, MessageRole};
use crate::text::{chars_of, dec, decimal, extend, extend_str, join, join_with, string_from, string_of, strs, views};

verus! {

/// What to do with output that appears to break the contract.
#[derive(Debug, Clone, Copy, PartialEq, Eq, Structural)]
pub enum RefusalPolicy {
    /// Log the possible violation and return the response anyway.
    WarnAndLog,
}

/// The source strings a generator may draw from.
#[derive(Debug)]
pub struct GroundingContract {
    pub allowed_source_text: Vec<String>,
    pub refusal_policy: RefusalPolicy,
}

/// The parts of a generation request that grounding rewrites.
#[derive(Debug)]
pub struct PromptParts {
    pub system: Option<String>,
    pub messages: Vec<ChatMessage>,
    pub grounding: Option<GroundingContract>,
}

/// Each source string numbered as `[source N] text`, from 1.
pub open spec fn numbered(texts: Seq<Seq<char>>) -> Seq<Seq<char>> {
    Seq::new(texts.len(), |i: int| "[source "@ + dec((i + 1) as nat) + "] "@ + texts[i])
}

/// The grounding instruction for the source strings `texts`.
pub open spec fn instruction(texts: Seq<Seq<char>>) -> Seq<char> {
    "You must only rephrase or reorder the following source strings. Do not invent facts, add skills, or introduce content not present below. Cite each claim as [source N].\n\n"@
        + join(numbered(texts), "\n"@)
}

/// The reminder put in front of the conversation.
pub open spec fn reminder() -> Seq<char> {
    "Remember: only rephrase the provided [source N] items. Do not invent."@
}

/// Apply the grounding contract of `req`, if any: the instruction and the
/// numbered source strings go after any existing system prompt, and a user
/// reminder goes in front of the conversation. A contract without source
/// strings is refused.
pub fn assemble_grounded_prompt(req: PromptParts) -> (r: Result<PromptParts, LlmError>)
    ensures
        match req.grounding {
            None => r matches Ok(p) && p.system == req.system && p.messages@ == req.messages@
                && p.grounding is None,
            Some(c) => if c.allowed_source_text@.len() == 0 {
                r matches Err(LlmError::GroundingViolation { reason }) && reason@
                    == "GroundingContract.allowed_source_text must not be empty"@
            } else {
                r matches Ok(p) && p.grounding is None && (p.system matches Some(s) && s@ == match req.system {
                    Some(e) => e@ + "\n\n"@ + instruction(strs(c.allowed_source_text@)),
                    None => instruction(strs(c.allowed_source_text@)),
                }) && p.messages@.len() == req.messages@.len() + 1 && says(
                    p.messages@[0],
                    MessageRole::User,
                    reminder(),
                ) && p.messages@.skip(1) == req.messages@
            },
        },
{
    let PromptParts { system, messages, grounding } = req;
    let contract = match grounding {
        None => {
            return Ok(PromptParts { system, messages, grounding: None });
        },
        Some(c) => c,
    };
    if contract.allowed_source_text.len() == 0 {
        return Err(
            LlmError::GroundingViolation {
                reason: string_from("GroundingContract.allowed_source_text must not be empty"),
            },
        );
    }
    let texts = &contract.allowed_source_text;
    let ghost tv = strs(texts@);
    let mut items: Vec<Vec<char>> = Vec::new();
    let mut i: usize = 0;
    while i < texts.len()
        invariant
            i <= texts@.len(),
            tv == strs(texts@),
            views(items@) == numbered(tv).take(i as int),
        decreases texts@.len() - i,
    {
        let mut item = chars_of("[source ");
        extend(&mut item, decimal((i + 1) as u64).as_slice());
        extend_str(&mut item, "] ");
        extend_str(&mut item, texts[i].as_str());
        let ghost before = items@;
        items.push(item);
        proof {
            assert(views(items@) =~= views(before).push(item@));
            assert(numbered(tv).take(i + 1) =~= numbered(tv).take(i as int).push(numbered(tv)[i as int]));
        }
        i = i + 1;
    }
    proof {
        assert(numbered(tv).take(i as int) =~= numbered(tv));
    }
    let block = join_with(items.as_slice(), chars_of("\n").as_slice());
    let mut instr = chars_of(
        "You must only rephrase or reorder the following source strings. Do not invent facts, add skills, or introduce content not present below. Cite each claim as [source N].\n\n",
    );
    extend(&mut instr, block.as_slice());
    let new_system = match system {
        Some(existing) => {
            let mut s = chars_of(existing.as_str());
            extend_str(&mut s, "\n\n");
            extend(&mut s, instr.as_slice());
            string_of(s.as_slice())
        },
        None => string_of(instr.as_slice()),
    };
    let mut msgs = messages;
    let ghost old_msgs = msgs@;
    msgs.insert(
        0,
        ChatMessage::text(
            MessageRole::User,
            "Remember: only rephrase the provided [source N] items. Do not invent.",
        ),
    );
    proof {
        assert(msgs@.skip(1) =~= old_msgs);
    }
    Ok(PromptParts { system: Some(new_system), messages: msgs, grounding: None })
}

} // verus!
