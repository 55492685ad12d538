use acp::connection::{
    prompt_response, session_event, session_update, session_update_method, turn_outcome,
    RequestError,
};
use acp::response::{ClientAction, FinishReason, MessageContent, ResponseEvent};
use acp::response_stream_driver::{
    acp_response_stream, AcpStreamIds, AcpTurn, TurnAction, TurnEvent, TurnStart,
};
use acp::session::{ChunkContent, ContentChunk, SessionEvent, SessionUpdate, StopReason};
use acp::transport::read_step;
use agent_client_protocol_schema::v1 as schema;

fn start() -> TurnStart {
    acp_response_stream(
        "s1".to_string(),
        vec![schema::ContentBlock::Text(schema::TextContent::new("go"))],
        AcpStreamIds {
            conversation_id: "conv-1".to_string(),
            task_id: "task-1".to_string(),
            request_id: "req-1".to_string(),
        },
    )
}

fn chunk(session_id: &str, text: &str) -> SessionEvent {
    SessionEvent {
        session_id: session_id.to_string(),
        update: SessionUpdate::AgentMessageChunk(ContentChunk {
            content: ChunkContent::Text { text: text.to_string() },
        }),
    }
}

fn lost() -> RequestError {
    RequestError::Failed { method: "session/prompt".to_string(), cause: "closed".to_string() }
}

/// Runs a turn against the lines that a scripted agent prints: updates as they
/// come, then the response to the prompt (request id 1).
fn run(lines: &[&str]) -> Vec<Result<ResponseEvent, RequestError>> {
    let TurnStart { mut turn, init, .. } = start();
    let mut outputs = vec![Ok(init)];
    let mut outcome = None;
    for line in lines {
        let message = read_step(line.len(), line).expect("a message");
        let value: serde_json::Value = serde_json::from_str(&message).unwrap();
        if value["method"] == session_update_method() {
            let notification = session_update(value["params"].clone()).expect("an update");
            let step = turn.step(TurnEvent::Updated(session_event(&notification)));
            assert_eq!(step.action, TurnAction::Wait);
            outputs.extend(step.output);
        } else if value["id"] == 1 {
            outcome = Some(turn_outcome(prompt_response(Ok(value["result"].clone()))));
        }
    }
    let step = turn.step(TurnEvent::PromptResolved(outcome.expect("the prompt resolves")));
    assert!(step.output.is_none());
    assert_eq!(step.action, TurnAction::TakeWaitingUpdate);
    let step = turn.step(TurnEvent::NothingWaiting);
    assert_eq!(step.action, TurnAction::Close);
    outputs.extend(step.output);
    outputs
}

/// A scripted fake agent: replies to the prompt with one streamed text chunk and
/// an end_turn result.
#[test]
fn driver_streams_init_updates_and_finished_from_fake_agent() {
    let events = run(&[
        "{\"jsonrpc\":\"2.0\",\"method\":\"session/update\",\"params\":{\"sessionId\":\"s1\",\"update\":{\"sessionUpdate\":\"agent_message_chunk\",\"content\":{\"type\":\"text\",\"text\":\"hi\"}}}}\n",
        "{\"jsonrpc\":\"2.0\",\"id\":1,\"result\":{\"stopReason\":\"end_turn\"}}\n",
    ]);
    assert_eq!(events.len(), 3, "init + one update + finished: {events:?}");

    let Ok(init) = &events[0] else {
        panic!("expected init event");
    };
    let ResponseEvent::Init { conversation_id, .. } = init else {
        panic!("expected StreamInit, got {init:?}");
    };
    assert_eq!(conversation_id, "conv-1");

    let Ok(update) = &events[1] else {
        panic!("expected client actions event");
    };
    let ResponseEvent::ClientActions { actions } = update else {
        panic!("expected ClientActions, got {update:?}");
    };
    let ClientAction::AddMessagesToTask { messages, .. } = &actions[0] else {
        panic!("expected AddMessagesToTask");
    };
    let Some(MessageContent::AgentOutput { text }) = &messages[0].message else {
        panic!("expected AgentOutput message");
    };
    assert_eq!(text, "hi");

    let Ok(finished) = &events[2] else {
        panic!("expected finished event");
    };
    let ResponseEvent::Finished { reason } = finished else {
        panic!("expected StreamFinished, got {finished:?}");
    };
    assert!(matches!(reason, FinishReason::Done));
}

/// Updates for other sessions on the same connection must not leak into this
/// turn's stream.
#[test]
fn driver_filters_updates_from_other_sessions() {
    let events = run(&[
        "{\"jsonrpc\":\"2.0\",\"method\":\"session/update\",\"params\":{\"sessionId\":\"other\",\"update\":{\"sessionUpdate\":\"agent_message_chunk\",\"content\":{\"type\":\"text\",\"text\":\"leak\"}}}}\n",
        "{\"jsonrpc\":\"2.0\",\"id\":1,\"result\":{\"stopReason\":\"end_turn\"}}\n",
    ]);
    // Just init + finished; the other session's update is filtered out.
    assert_eq!(events.len(), 2, "unexpected events: {events:?}");
    assert!(matches!(&events[0], Ok(ResponseEvent::Init { .. })));
    assert!(matches!(&events[1], Ok(ResponseEvent::Finished { .. })));
}

#[test]
fn a_turn_starts_with_its_prompt() {
    let TurnStart { turn, init, request } = start();
    assert_eq!(
        init,
        ResponseEvent::Init {
            conversation_id: "conv-1".to_string(),
            request_id: "req-1".to_string(),
            run_id: String::new(),
        }
    );
    let value = serde_json::to_value(request).unwrap();
    assert_eq!(value["sessionId"], "s1");
    assert_eq!(value["prompt"][0]["text"], "go");
    assert_eq!(turn.session_id(), "s1");
    assert_eq!(turn.action(), TurnAction::Wait);
}

fn is_chunk(output: &Option<Result<ResponseEvent, RequestError>>) -> bool {
    matches!(output, Some(Ok(ResponseEvent::ClientActions { .. })))
}

#[test]
fn trailing_updates_come_before_the_end() {
    let mut turn: AcpTurn = start().turn;
    assert!(is_chunk(&turn.step(TurnEvent::Updated(chunk("s1", "a"))).output));
    turn.step(TurnEvent::PromptResolved(Ok(StopReason::MaxTokens)));
    let step = turn.step_with_id(TurnEvent::Updated(chunk("s1", "b")), "unused".to_string());
    assert!(is_chunk(&step.output));
    assert_eq!(step.action, TurnAction::TakeWaitingUpdate);
    assert!(turn.step(TurnEvent::Updated(chunk("other", "c"))).output.is_none());
    let step = turn.step(TurnEvent::UpdatesClosed);
    assert_eq!(
        step.output,
        Some(Ok(ResponseEvent::Finished { reason: FinishReason::MaxTokenLimit }))
    );
    assert_eq!(step.action, TurnAction::Close);
}

#[test]
fn cancelling_is_forwarded_and_waits_for_the_agent() {
    let mut turn = start().turn;
    let step = turn.step(TurnEvent::CancelRequested);
    assert!(step.output.is_none());
    assert_eq!(step.action, TurnAction::SendCancel);
    assert_eq!(turn.action(), TurnAction::Wait);
    turn.step(TurnEvent::PromptResolved(Ok(StopReason::Cancelled)));
    let step = turn.step(TurnEvent::NothingWaiting);
    assert_eq!(
        step.output,
        Some(Ok(ResponseEvent::Finished { reason: FinishReason::Done }))
    );
}

#[test]
fn a_closed_update_stream_waits_for_the_prompt() {
    let mut turn = start().turn;
    let step = turn.step(TurnEvent::UpdatesClosed);
    assert!(step.output.is_none());
    assert_eq!(step.action, TurnAction::AwaitPrompt);
    assert!(turn.step(TurnEvent::Updated(chunk("s1", "late"))).output.is_none());
    assert_eq!(turn.step(TurnEvent::CancelRequested).action, TurnAction::AwaitPrompt);
    let step = turn.step(TurnEvent::PromptResolved(Err(lost())));
    assert_eq!(step.output, Some(Err(lost())));
    assert_eq!(step.action, TurnAction::Close);
}

#[test]
fn a_failed_prompt_ends_the_stream_with_its_error() {
    let mut turn = start().turn;
    turn.step(TurnEvent::PromptResolved(Err(lost())));
    let step = turn.step(TurnEvent::NothingWaiting);
    assert_eq!(step.output, Some(Err(lost())));
}

#[test]
fn nothing_comes_after_the_end() {
    let mut turn = start().turn;
    turn.step(TurnEvent::PromptResolved(Ok(StopReason::EndTurn)));
    turn.step(TurnEvent::NothingWaiting);
    for event in [
        TurnEvent::PromptResolved(Ok(StopReason::EndTurn)),
        TurnEvent::CancelRequested,
        TurnEvent::Updated(chunk("s1", "late")),
        TurnEvent::NothingWaiting,
        TurnEvent::UpdatesClosed,
    ] {
        assert!(!turn.needs_fresh_id(&event));
        let step = turn.step(event);
        assert!(step.output.is_none());
        assert_eq!(step.action, TurnAction::Close);
    }
}

#[test]
fn stop_reasons_are_told_apart() {
    for (text, reason) in [
        ("end_turn", StopReason::EndTurn),
        ("max_tokens", StopReason::MaxTokens),
        ("max_turn_requests", StopReason::MaxTurnRequests),
        ("refusal", StopReason::Refusal),
        ("cancelled", StopReason::Cancelled),
    ] {
        let value = serde_json::from_str(&format!("{{\"stopReason\":\"{text}\"}}")).unwrap();
        assert_eq!(turn_outcome(prompt_response(Ok(value))), Ok(reason));
    }
    assert_eq!(turn_outcome(Err(lost())), Err(lost()));
}

#[test]
fn the_first_outcome_closes_the_stream() {
    let mut turn = start().turn;
    turn.step(TurnEvent::CancelRequested);
    turn.step(TurnEvent::PromptResolved(Ok(StopReason::Refusal)));
    turn.step(TurnEvent::PromptResolved(Err(lost())));
    assert_eq!(
        turn.step(TurnEvent::NothingWaiting).output,
        Some(Ok(ResponseEvent::Finished { reason: FinishReason::Other }))
    );
}
