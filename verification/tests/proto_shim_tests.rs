use acp::proto_shim::{payload_or_empty, AcpProtoShim};
use acp::response::{ClientAction, FinishReason, MessageContent, ResponseEvent, Tool};
use acp::session::{
    ChunkContent, ContentChunk, SessionUpdate, StopReason, ToolCall, ToolCallUpdate,
    ToolCallUpdateFields,
};
use agent_client_protocol_schema::v1 as schema;

fn shim() -> AcpProtoShim {
    AcpProtoShim::new("task-1".to_string(), "req-1".to_string())
}

fn text_chunk(text: &str) -> ContentChunk {
    ContentChunk { content: ChunkContent::Text { text: text.to_string() } }
}

fn tool_call(id: &str, title: &str) -> ToolCall {
    ToolCall {
        tool_call_id: id.to_string(),
        title: title.to_string(),
        kind: schema::ToolKind::default(),
        status: schema::ToolCallStatus::default(),
        content: Vec::new(),
        locations: Vec::new(),
        raw_input: None,
        raw_output: None,
        meta: None,
    }
}

fn actions_of(event: ResponseEvent) -> Vec<ClientAction> {
    match event {
        ResponseEvent::ClientActions { actions } => actions,
        other => panic!("expected ClientActions, got {other:?}"),
    }
}

#[test]
fn stream_init_carries_conversation_and_request_ids() {
    let event = shim().stream_init("conv-1".to_string());
    let ResponseEvent::Init { conversation_id, request_id, run_id } = event else {
        panic!("expected Init");
    };
    assert_eq!(conversation_id, "conv-1");
    assert_eq!(request_id, "req-1");
    assert_eq!(run_id, "");
}

#[test]
fn first_text_chunk_adds_message_subsequent_chunks_append() {
    let mut shim = shim();

    let first = shim
        .map_update(SessionUpdate::AgentMessageChunk(text_chunk("Hel")))
        .expect("mapped");
    let actions = actions_of(first);
    let ClientAction::AddMessagesToTask { task_id, messages } = &actions[0] else {
        panic!("expected AddMessagesToTask, got {:?}", actions[0]);
    };
    assert_eq!(task_id, "task-1");
    let message = &messages[0];
    let Some(MessageContent::AgentOutput { text }) = &message.message else {
        panic!("expected AgentOutput");
    };
    assert_eq!(text, "Hel");
    let first_message_id = message.id.clone();

    let second = shim
        .map_update(SessionUpdate::AgentMessageChunk(text_chunk("lo")))
        .expect("mapped");
    let actions = actions_of(second);
    let ClientAction::AppendToMessageContent { message, mask, .. } = &actions[0] else {
        panic!("expected AppendToMessageContent, got {:?}", actions[0]);
    };
    assert_eq!(message.id, first_message_id);
    assert_eq!(mask.paths, vec!["message.agent_output.text".to_string()]);
}

#[test]
fn switching_between_text_and_reasoning_starts_new_messages() {
    let mut shim = shim();
    shim.map_update(SessionUpdate::AgentMessageChunk(text_chunk("a")))
        .expect("mapped");

    let reasoning = shim
        .map_update(SessionUpdate::AgentThoughtChunk(text_chunk("hmm")))
        .expect("mapped");
    let actions = actions_of(reasoning);
    let ClientAction::AddMessagesToTask { messages, .. } = &actions[0] else {
        panic!("reasoning after text should start a new message");
    };
    let Some(MessageContent::AgentReasoning { reasoning }) = &messages[0].message else {
        panic!("expected AgentReasoning");
    };
    assert_eq!(reasoning, "hmm");

    // And returning to text starts another new message.
    let text_again = shim
        .map_update(SessionUpdate::AgentMessageChunk(text_chunk("b")))
        .expect("mapped");
    let actions = actions_of(text_again);
    assert!(matches!(&actions[0], ClientAction::AddMessagesToTask { .. }));
}

#[test]
fn tool_call_becomes_display_only_server_tool() {
    let mut shim = shim();
    let tool_call = tool_call("tc-9", "Reading files");
    let event = shim.map_update(SessionUpdate::ToolCall(tool_call)).expect("mapped");
    let actions = actions_of(event);
    let ClientAction::AddMessagesToTask { messages, .. } = &actions[0] else {
        panic!("expected AddMessagesToTask");
    };
    let Some(MessageContent::ToolCall { tool_call_id, tool }) = &messages[0].message else {
        panic!("expected ToolCall message");
    };
    assert_eq!(tool_call_id, "tc-9");
    let Tool::Server { payload } = tool else {
        panic!("expected display-only Server tool");
    };
    assert!(payload.contains("Reading files"));
}

#[test]
fn tool_call_update_replaces_message_with_mask() {
    let mut shim = shim();
    shim.map_update(SessionUpdate::ToolCall(tool_call("tc-9", "Running")))
        .expect("mapped");

    let event = shim
        .map_update(SessionUpdate::ToolCallUpdate(ToolCallUpdate {
            tool_call_id: "tc-9".to_string(),
            fields: Default::default(),
            meta: None,
        }))
        .expect("mapped");
    let actions = actions_of(event);
    let ClientAction::UpdateTaskMessage { message, mask, .. } = &actions[0] else {
        panic!("expected UpdateTaskMessage");
    };
    assert_eq!(message.id, "tc-9");
    assert_eq!(mask.paths, vec!["message.tool_call".to_string()]);
}

#[test]
fn interleaved_tool_call_splits_streaming_text() {
    let mut shim = shim();
    shim.map_update(SessionUpdate::AgentMessageChunk(text_chunk("a")))
        .expect("mapped");
    shim.map_update(SessionUpdate::ToolCall(tool_call("tc-1", "Tool")))
        .expect("mapped");

    // Text after a tool call must start a fresh message, not append to the
    // pre-tool-call one.
    let event = shim
        .map_update(SessionUpdate::AgentMessageChunk(text_chunk("b")))
        .expect("mapped");
    let actions = actions_of(event);
    assert!(matches!(&actions[0], ClientAction::AddMessagesToTask { .. }));
}

#[test]
fn unmapped_updates_return_none() {
    let mut shim = shim();
    assert!(shim
        .map_update(SessionUpdate::Plan(schema::Plan::new(vec![])))
        .is_none());
    assert!(shim
        .map_update(SessionUpdate::UserMessageChunk(text_chunk("x")))
        .is_none());
}

#[test]
fn stream_finished_maps_stop_reasons() {
    let shim = shim();
    assert_eq!(
        shim.stream_finished(StopReason::EndTurn),
        ResponseEvent::Finished { reason: FinishReason::Done }
    );
    assert_eq!(
        shim.stream_finished(StopReason::MaxTokens),
        ResponseEvent::Finished { reason: FinishReason::MaxTokenLimit }
    );
    for (stop_reason, reason) in [
        (StopReason::MaxTurnRequests, FinishReason::Done),
        (StopReason::Cancelled, FinishReason::Done),
        (StopReason::Refusal, FinishReason::Other),
        (StopReason::Other, FinishReason::Done),
    ] {
        assert_eq!(
            shim.stream_finished(stop_reason),
            ResponseEvent::Finished { reason }
        );
    }
}

#[test]
fn new_messages_get_the_given_id() {
    let mut shim = shim();
    let update = SessionUpdate::AgentThoughtChunk(text_chunk("hm"));
    assert!(shim.needs_fresh_id(&update));
    let event = shim.map_update_with_id(update, "id-1".to_string()).expect("mapped");
    let actions = actions_of(event);
    let ClientAction::AddMessagesToTask { messages, .. } = &actions[0] else {
        panic!("expected AddMessagesToTask");
    };
    assert_eq!(messages.len(), 1);
    assert_eq!(messages[0].id, "id-1");
    assert_eq!(messages[0].task_id, "task-1");
    assert_eq!(messages[0].request_id, "req-1");
    assert_eq!(messages[0].server_message_data, "");

    let update = SessionUpdate::AgentThoughtChunk(text_chunk("m"));
    assert!(!shim.needs_fresh_id(&update));
    let event = shim.map_update_with_id(update, "id-2".to_string()).expect("mapped");
    let actions = actions_of(event);
    let ClientAction::AppendToMessageContent { message, mask, .. } = &actions[0] else {
        panic!("expected AppendToMessageContent");
    };
    assert_eq!(message.id, "id-1");
    assert_eq!(mask.paths, vec!["message.agent_reasoning.reasoning".to_string()]);
}

#[test]
fn random_message_ids_are_version_4_uuids() {
    let mut shim = shim();
    let event = shim
        .map_update(SessionUpdate::AgentMessageChunk(text_chunk("a")))
        .expect("mapped");
    let actions = actions_of(event);
    let ClientAction::AddMessagesToTask { messages, .. } = &actions[0] else {
        panic!("expected AddMessagesToTask");
    };
    let id = uuid::Uuid::parse_str(&messages[0].id).expect("a UUID");
    assert_eq!(id.get_version_num(), 4);
    assert_eq!(id.to_string(), messages[0].id);
}

#[test]
fn tool_call_payloads_are_json() {
    let meta: schema::Meta = serde_json::from_str(r#"{"k":"v"}"#).unwrap();
    let mut shim = shim();
    let mut call = tool_call("tc-2", "Edit");
    call.kind = schema::ToolKind::Edit;
    call.status = schema::ToolCallStatus::Completed;
    call.locations = vec![schema::ToolCallLocation::new("/tmp/a")];
    call.raw_input = Some(serde_json::Value::from(1));
    call.raw_output = Some(serde_json::Value::from("out"));
    call.meta = Some(meta.clone());
    let expected = serde_json::to_string(
        &schema::ToolCall::new("tc-2", "Edit")
            .kind(schema::ToolKind::Edit)
            .status(schema::ToolCallStatus::Completed)
            .locations(vec![schema::ToolCallLocation::new("/tmp/a")])
            .raw_input(serde_json::Value::from(1))
            .raw_output(serde_json::Value::from("out"))
            .meta(meta),
    )
    .unwrap();
    let actions = actions_of(shim.map_update(SessionUpdate::ToolCall(call)).expect("mapped"));
    let ClientAction::AddMessagesToTask { messages, .. } = &actions[0] else {
        panic!("expected AddMessagesToTask");
    };
    let Some(MessageContent::ToolCall { tool: Tool::Server { payload }, .. }) = &messages[0].message
    else {
        panic!("expected a server tool");
    };
    assert_eq!(payload, &expected);
    let value: serde_json::Value = serde_json::from_str(payload).unwrap();
    assert_eq!(value["toolCallId"], "tc-2");
    assert_eq!(value["title"], "Edit");
    assert_eq!(value["kind"], "edit");
    assert_eq!(value["rawInput"], 1);
    assert_eq!(value["_meta"]["k"], "v");
}

#[test]
fn tool_call_update_payloads_are_json() {
    let mut shim = shim();
    let fields = ToolCallUpdateFields {
        title: Some("Done".to_string()),
        status: Some(schema::ToolCallStatus::Failed),
        ..Default::default()
    };
    let update = SessionUpdate::ToolCallUpdate(ToolCallUpdate {
        tool_call_id: "tc-3".to_string(),
        fields,
        meta: None,
    });
    let actions = actions_of(shim.map_update(update).expect("mapped"));
    let ClientAction::UpdateTaskMessage { message, .. } = &actions[0] else {
        panic!("expected UpdateTaskMessage");
    };
    let Some(MessageContent::ToolCall { tool: Tool::Server { payload }, .. }) = &message.message
    else {
        panic!("expected a server tool");
    };
    let value: serde_json::Value = serde_json::from_str(payload).unwrap();
    assert_eq!(value["toolCallId"], "tc-3");
    assert_eq!(value["title"], "Done");
    assert_eq!(value["status"], "failed");
    assert!(value.get("kind").is_none());
}

#[test]
fn chunks_without_text_are_not_mapped() {
    let mut shim = shim();
    for content in [
        ChunkContent::Image,
        ChunkContent::Audio,
        ChunkContent::Resource,
        ChunkContent::Other,
    ] {
        let update = SessionUpdate::AgentMessageChunk(ContentChunk { content });
        assert!(!shim.needs_fresh_id(&update));
        assert!(shim.map_update(update).is_none());
    }
    for update in [
        SessionUpdate::AvailableCommandsUpdate,
        SessionUpdate::CurrentModeUpdate,
        SessionUpdate::ConfigOptionUpdate,
        SessionUpdate::SessionInfoUpdate,
        SessionUpdate::UsageUpdate,
        SessionUpdate::Other,
    ] {
        assert!(shim.map_update(update).is_none());
    }
}

#[test]
fn tool_call_updates_leave_the_streaming_message_open() {
    let mut shim = shim();
    shim.map_update_with_id(
        SessionUpdate::AgentMessageChunk(text_chunk("a")),
        "id-1".to_string(),
    )
    .expect("mapped");
    shim.map_update(SessionUpdate::ToolCallUpdate(ToolCallUpdate {
        tool_call_id: "tc".to_string(),
        fields: Default::default(),
        meta: None,
    }))
    .expect("mapped");
    let event = shim
        .map_update(SessionUpdate::AgentMessageChunk(text_chunk("b")))
        .expect("mapped");
    let actions = actions_of(event);
    assert!(matches!(
        &actions[0],
        ClientAction::AppendToMessageContent { message, .. } if message.id == "id-1"
    ));
}

#[test]
fn payloads_that_cannot_be_encoded_are_empty() {
    let error = serde_json::from_str::<serde_json::Value>("{").unwrap_err();
    assert_eq!(payload_or_empty(Err(error)), "");
    assert_eq!(payload_or_empty(Ok("{}".to_string())), "{}");
}
