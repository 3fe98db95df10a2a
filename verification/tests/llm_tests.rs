use mcp_rag::llm::openai::{response_of, ChoiceParts, ToolCallParts};
use mcp_rag::json::Json;
use mcp_rag::llm::agent::{assistant_turn, exhausted_error, AgentLoop, Next, Step};
use mcp_rag::llm::grounding::{assemble_grounded_prompt, GroundingContract, PromptParts, RefusalPolicy};
use mcp_rag::llm::openai::{api_messages, message_to_api, model_for, rate_limited, stop_reason_for, upstream_error};
use mcp_rag::llm::types::{ChatMessage, LlmError, MessageRole, StopReason};

fn make_req(grounding: Option<GroundingContract>) -> PromptParts {
    PromptParts {
        system: None,
        messages: vec![ChatMessage::text(MessageRole::User, "Rewrite my bullets.")],
        grounding,
    }
}

#[test]
fn no_grounding_passthrough() {
    let req = make_req(None);
    let out = assemble_grounded_prompt(req).unwrap();
    assert!(out.system.is_none());
    assert_eq!(out.messages.len(), 1);
}

#[test]
fn grounding_injects_system_and_reminder() {
    let contract = GroundingContract {
        allowed_source_text: vec!["Led migration to Rust".to_owned(), "Reduced latency by 40%".to_owned()],
        refusal_policy: RefusalPolicy::WarnAndLog,
    };
    let req = make_req(Some(contract));
    let out = assemble_grounded_prompt(req).unwrap();

    let system = out.system.unwrap();
    assert!(system.contains("[source 1] Led migration to Rust"));
    assert!(system.contains("[source 2] Reduced latency by 40%"));
    assert_eq!(out.messages[0].role, MessageRole::User);
    assert!(out.messages[0].text_content().contains("Do not invent"));
    assert_eq!(out.messages[1].text_content(), "Rewrite my bullets.");
}

#[test]
fn empty_source_text_is_an_error() {
    let contract = GroundingContract { allowed_source_text: vec![], refusal_policy: RefusalPolicy::WarnAndLog };
    let req = make_req(Some(contract));
    let err = assemble_grounded_prompt(req).unwrap_err();
    assert!(matches!(err, LlmError::GroundingViolation { .. }));
}

#[test]
fn grounding_appends_to_existing_system_prompt() {
    let req = PromptParts {
        system: Some("Be brief.".to_string()),
        messages: vec![],
        grounding: Some(GroundingContract {
            allowed_source_text: vec!["Only fact".to_string()],
            refusal_policy: RefusalPolicy::WarnAndLog,
        }),
    };
    let out = assemble_grounded_prompt(req).unwrap();
    let system = out.system.unwrap();
    assert!(system.starts_with("Be brief.\n\nYou must only rephrase"));
    assert!(system.ends_with("Cite each claim as [source N].\n\n[source 1] Only fact"));
    assert_eq!(out.messages.len(), 1);
    assert!(out.grounding.is_none());
}

#[test]
fn message_to_api_text() {
    let msg = ChatMessage::text(MessageRole::User, "hello");
    let api = message_to_api(&msg);
    assert_eq!(api.role, "user");
    assert_eq!(api.content, "hello");
    assert!(api.tool_call_id.is_none());
}

#[test]
fn message_to_api_tool_result() {
    let msg = ChatMessage::tool_result("call-1", "result text", false);
    let api = message_to_api(&msg);
    assert_eq!(api.tool_call_id, Some("call-1".into()));
    assert_eq!(api.content, "result text");
}

#[test]
fn message_to_api_error_tool_result() {
    let msg = ChatMessage::tool_result("call-2", "bad input", true);
    let api = message_to_api(&msg);
    assert_eq!(api.content, "[ERROR] bad input");
}

#[test]
fn api_messages_put_system_first() {
    let msgs = vec![ChatMessage::text(MessageRole::Assistant, "hi")];
    let out = api_messages(&Some("sys".to_string()), &msgs);
    assert_eq!(out.len(), 2);
    assert_eq!(out[0].role, "system");
    assert_eq!(out[0].content, "sys");
    assert_eq!(out[1].role, "assistant");
    assert_eq!(api_messages(&None, &msgs).len(), 1);
}

#[test]
fn default_model_when_none_requested() {
    assert_eq!(model_for(""), "gpt-4o-mini");
    assert_eq!(model_for("gpt-4o"), "gpt-4o");
}

#[test]
fn finish_reasons_map_to_stop_reasons() {
    assert!(matches!(stop_reason_for(Some("stop")), StopReason::EndTurn));
    assert!(matches!(stop_reason_for(None), StopReason::EndTurn));
    assert!(matches!(stop_reason_for(Some("length")), StopReason::MaxTokens));
    assert!(matches!(stop_reason_for(Some("tool_calls")), StopReason::ToolUse));
    assert!(matches!(stop_reason_for(Some("content_filter")), StopReason::StopSequence));
    match stop_reason_for(Some("weird")) {
        StopReason::Other(s) => assert_eq!(s, "weird"),
        other => panic!("unexpected {:?}", other),
    }
}

#[test]
fn failed_calls_map_to_errors() {
    assert!(matches!(rate_limited(Some("12")), LlmError::RateLimited { retry_after_secs: 12 }));
    assert!(matches!(rate_limited(Some("soon")), LlmError::RateLimited { retry_after_secs: 5 }));
    assert!(matches!(rate_limited(None), LlmError::RateLimited { retry_after_secs: 5 }));
    match upstream_error(Some(("invalid_request", "bad model")), "{}") {
        LlmError::Upstream { message } => assert_eq!(message, "[invalid_request] bad model"),
        other => panic!("unexpected {:?}", other),
    }
    match upstream_error(None, "gateway timeout") {
        LlmError::Upstream { message } => assert_eq!(message, "gateway timeout"),
        other => panic!("unexpected {:?}", other),
    }
}

#[test]
fn error_messages() {
    assert_eq!(
        LlmError::RateLimited { retry_after_secs: 7 }.message(),
        "provider rate limited, retry after 7s"
    );
    assert_eq!(
        LlmError::ContextTooLarge { token_count: 9000, limit: 8000 }.message(),
        "context window exceeded: 9000 tokens > 8000"
    );
}

#[test]
fn single_turn_end_turn_finishes_in_one() {
    let mut l = AgentLoop::new(5, 100_000);
    assert!(matches!(l.before_turn(), Step::Generate));
    assert_eq!(l.after_response(10, 5, &StopReason::EndTurn), Next::Finish { turns: 1 });
    assert_eq!(l.total_input, 10);
    assert_eq!(l.total_output, 5);
}

#[test]
fn tool_use_then_end_turn_takes_two_turns() {
    let mut l = AgentLoop::new(5, 100_000);
    assert_eq!(l.after_response(10, 5, &StopReason::ToolUse), Next::RunTools);
    assert!(matches!(l.before_turn(), Step::Generate));
    assert_eq!(l.after_response(20, 5, &StopReason::EndTurn), Next::Finish { turns: 2 });
    assert_eq!(l.total_input, 30);
}

#[test]
fn max_turns_exhausted_reports_error() {
    let mut l = AgentLoop::new(2, 100_000);
    assert_eq!(l.after_response(1, 1, &StopReason::ToolUse), Next::RunTools);
    assert_eq!(l.after_response(1, 1, &StopReason::ToolUse), Next::RunTools);
    match l.before_turn() {
        Step::Exhausted(LlmError::Other(m)) => assert_eq!(m, "agent loop exhausted 2 turns without EndTurn"),
        other => panic!("unexpected {:?}", other),
    }
    match exhausted_error(3) {
        LlmError::Other(m) => assert_eq!(m, "agent loop exhausted 3 turns without EndTurn"),
        other => panic!("unexpected {:?}", other),
    }
}

#[test]
fn token_budget_stops_the_loop() {
    let mut l = AgentLoop::new(10, 100);
    assert_eq!(l.after_response(60, 40, &StopReason::ToolUse), Next::RunTools);
    assert!(matches!(l.before_turn(), Step::Exhausted(_)));
}

#[test]
fn unhandled_stop_reason_stops() {
    let mut l = AgentLoop::new(3, 100);
    assert_eq!(l.after_response(1, 1, &StopReason::Other("refusal".to_string())), Next::Stop);
    assert_eq!(l.turn, 0);
}

#[test]
fn assistant_turn_only_with_text() {
    assert!(assistant_turn("").is_none());
    let m = assistant_turn("thinking").unwrap();
    assert_eq!(m.role, MessageRole::Assistant);
    assert_eq!(m.text_content(), "thinking");
}

#[test]
fn reply_without_choices_is_an_error() {
    match response_of(None, 1, 2, "gpt-4o-mini".to_string()) {
        Err(LlmError::Other(m)) => assert_eq!(m, "No choices in response"),
        other => panic!("unexpected {:?}", other),
    }
}

#[test]
fn reply_choice_becomes_response() {
    let choice = ChoiceParts {
        content: None,
        tool_calls: Some(vec![
            ToolCallParts { id: "c1".to_string(), name: "search".to_string(), arguments: Some(Json::Bool(true)) },
            ToolCallParts { id: "c2".to_string(), name: "read".to_string(), arguments: None },
        ]),
        finish_reason: Some("tool_calls".to_string()),
    };
    let r = response_of(Some(choice), 10, 20, "gpt-4o".to_string()).unwrap();
    assert_eq!(r.content, "");
    assert_eq!(r.input_tokens, 10);
    assert_eq!(r.output_tokens, 20);
    assert_eq!(r.model, "gpt-4o");
    assert!(matches!(r.stop_reason, StopReason::ToolUse));
    assert_eq!(r.tool_calls.len(), 2);
    assert_eq!(r.tool_calls[0].id, "c1");
    assert_eq!(r.tool_calls[0].name, "search");
    assert!(matches!(r.tool_calls[0].arguments, Json::Bool(true)));
    assert_eq!(r.tool_calls[1].id, "c2");
    assert!(matches!(r.tool_calls[1].arguments, Json::Null));
    let plain = ChoiceParts { content: Some("hi".to_string()), tool_calls: None, finish_reason: None };
    let r = response_of(Some(plain), 0, 0, "m".to_string()).unwrap();
    assert_eq!(r.content, "hi");
    assert!(r.tool_calls.is_empty());
    assert!(matches!(r.stop_reason, StopReason::EndTurn));
}
