use acp::connection::RequestError;
use acp::conversation::{
    after_initialize, after_new_session, begin_handshake, AcpConversation, AcpConversationEvent,
    AcpConversationItem, AcpConversationStatus, Handshake, HandshakeStep,
};
use acp::session::{
    ChunkContent, ContentChunk, SessionUpdate, StopReason, ToolCall, ToolCallUpdate,
    ToolCallUpdateFields,
};
use agent_client_protocol_schema::v1 as schema;

fn empty_conversation() -> AcpConversation<u32> {
    AcpConversation {
        connection: None,
        status: AcpConversationStatus::Idle,
        session_id: None,
        auth_methods: Vec::new(),
        items: Vec::new(),
    }
}

fn text_chunk(text: &str) -> ContentChunk {
    ContentChunk { content: ChunkContent::Text { text: text.to_string() } }
}

fn tool_call(id: &str, title: &str) -> ToolCall {
    ToolCall {
        tool_call_id: id.to_string(),
        title: title.to_string(),
        kind: schema::ToolKind::default(),
        status: schema::ToolCallStatus::default(),
        content: Vec::new(),
        locations: Vec::new(),
        raw_input: None,
        raw_output: None,
        meta: None,
    }
}

fn tool_call_update(id: &str, fields: ToolCallUpdateFields) -> SessionUpdate {
    SessionUpdate::ToolCallUpdate(ToolCallUpdate {
        tool_call_id: id.to_string(),
        fields,
        meta: None,
    })
}

fn failure() -> RequestError {
    RequestError::Failed { method: "session/new".to_string(), cause: "closed".to_string() }
}

fn auth_methods() -> Vec<schema::AuthMethod> {
    let value = serde_json::from_str(r#"[{"id":"login","name":"Log in"}]"#).unwrap();
    serde_json::from_value(value).unwrap()
}

#[test]
fn agent_message_chunks_accumulate_into_one_item() {
    let mut conversation = empty_conversation();
    conversation.apply_update(SessionUpdate::AgentMessageChunk(text_chunk("Hel")));
    conversation.apply_update(SessionUpdate::AgentMessageChunk(text_chunk("lo")));

    assert_eq!(
        conversation.items(),
        &[AcpConversationItem::AgentMessage {
            markdown: "Hello".to_string()
        }]
    );
}

#[test]
fn thought_and_message_chunks_stay_separate_items() {
    let mut conversation = empty_conversation();
    conversation.apply_update(SessionUpdate::AgentThoughtChunk(text_chunk("thinking")));
    conversation.apply_update(SessionUpdate::AgentMessageChunk(text_chunk("answer")));
    conversation.apply_update(SessionUpdate::AgentThoughtChunk(text_chunk(" more")));

    assert_eq!(conversation.items().len(), 3);
    assert!(matches!(
        &conversation.items()[2],
        AcpConversationItem::AgentThought { markdown } if markdown == " more"
    ));
}

#[test]
fn tool_call_update_merges_fields_by_id() {
    let mut conversation = empty_conversation();
    conversation.apply_update(SessionUpdate::ToolCall(tool_call("tc-1", "Running ls")));

    let mut fields = ToolCallUpdateFields::default();
    fields.status = Some(schema::ToolCallStatus::Completed);
    fields.title = Some("Ran ls".to_string());
    conversation.apply_update(tool_call_update("tc-1", fields));

    let AcpConversationItem::ToolCall(tool_call) = &conversation.items()[0] else {
        panic!("expected tool call item");
    };
    assert_eq!(tool_call.title, "Ran ls");
    assert_eq!(tool_call.status, schema::ToolCallStatus::Completed);
}

#[test]
fn tool_call_update_for_unknown_id_is_ignored() {
    let mut conversation = empty_conversation();
    conversation.apply_update(tool_call_update("nope", Default::default()));
    assert!(conversation.items().is_empty());
}

#[test]
fn plan_updates_replace_previous_plan() {
    let mut conversation = empty_conversation();
    let plan_one = schema::Plan::new(vec![]);
    conversation.apply_update(SessionUpdate::Plan(plan_one));
    conversation.apply_update(SessionUpdate::AgentMessageChunk(text_chunk("hi")));

    let plan_two = schema::Plan::new(vec![schema::PlanEntry::new(
        "step 1",
        schema::PlanEntryPriority::Medium,
        schema::PlanEntryStatus::Pending,
    )]);
    conversation.apply_update(SessionUpdate::Plan(plan_two.clone()));

    // Still two items: the plan was replaced in place, not appended.
    assert_eq!(conversation.items().len(), 2);
    assert!(matches!(
        &conversation.items()[0],
        AcpConversationItem::Plan(plan) if *plan == plan_two
    ));
}

#[test]
fn user_message_chunks_accumulate() {
    let mut conversation = empty_conversation();
    conversation.apply_update(SessionUpdate::UserMessageChunk(text_chunk("a")));
    conversation.apply_update(SessionUpdate::UserMessageChunk(text_chunk("b")));
    assert_eq!(
        conversation.items(),
        &[AcpConversationItem::UserMessage {
            markdown: "ab".to_string()
        }]
    );
}

#[test]
fn links_are_shown_by_their_target_and_images_not_at_all() {
    let mut conversation = empty_conversation();
    conversation.apply_update(SessionUpdate::AgentMessageChunk(ContentChunk {
        content: ChunkContent::ResourceLink { uri: "file:///a".to_string() },
    }));
    for content in [
        ChunkContent::Image,
        ChunkContent::Audio,
        ChunkContent::Resource,
        ChunkContent::Other,
    ] {
        conversation.apply_update(SessionUpdate::AgentMessageChunk(ContentChunk { content }));
    }
    assert_eq!(
        conversation.items(),
        &[AcpConversationItem::AgentMessage {
            markdown: "file:///a".to_string()
        }]
    );
}

#[test]
fn only_the_last_tool_call_with_the_id_is_updated() {
    let mut conversation = empty_conversation();
    conversation.apply_update(SessionUpdate::ToolCall(tool_call("tc", "first")));
    conversation.apply_update(SessionUpdate::ToolCall(tool_call("tc", "second")));
    conversation.apply_update(SessionUpdate::ToolCall(tool_call("other", "third")));
    let value: serde_json::Value = serde_json::from_str("[1]").unwrap();
    let fields = ToolCallUpdateFields {
        kind: Some(schema::ToolKind::Read),
        raw_input: Some(value.clone()),
        raw_output: Some(value.clone()),
        content: Some(Vec::new()),
        locations: Some(vec![schema::ToolCallLocation::new("/tmp/a")]),
        ..Default::default()
    };
    conversation.apply_update(tool_call_update("tc", fields));
    let AcpConversationItem::ToolCall(first) = &conversation.items()[0] else {
        panic!("expected tool call item");
    };
    assert_eq!(first, &tool_call("tc", "first"));
    let AcpConversationItem::ToolCall(second) = &conversation.items()[1] else {
        panic!("expected tool call item");
    };
    assert_eq!(second.title, "second");
    assert_eq!(second.kind, schema::ToolKind::Read);
    assert_eq!(second.locations.len(), 1);
    assert_eq!(second.raw_input, Some(value.clone()));
    assert_eq!(second.raw_output, Some(value));
    assert_eq!(conversation.items().len(), 3);
}

#[test]
fn other_updates_are_not_displayed() {
    let mut conversation = empty_conversation();
    for update in [
        SessionUpdate::AvailableCommandsUpdate,
        SessionUpdate::CurrentModeUpdate,
        SessionUpdate::ConfigOptionUpdate,
        SessionUpdate::SessionInfoUpdate,
        SessionUpdate::UsageUpdate,
        SessionUpdate::Other,
    ] {
        assert_eq!(conversation.session_updated(update), AcpConversationEvent::Updated);
    }
    assert!(conversation.items().is_empty());
}

#[test]
fn a_spawned_process_starts_a_conversation() {
    let conversation = AcpConversation::start(Ok(7u32));
    assert_eq!(conversation.status(), &AcpConversationStatus::Starting);
    assert_eq!(conversation.shutdown(), Some(&7));
    assert!(conversation.cancel().is_none());
    assert!(conversation.items().is_empty());
    assert!(conversation.auth_methods().is_empty());

    let failed = AcpConversation::<u32>::start(Err("no such file".to_string()));
    assert_eq!(
        failed.status(),
        &AcpConversationStatus::Failed("no such file".to_string())
    );
    assert_eq!(failed.shutdown(), None);
}

#[test]
fn the_handshake_offers_files_and_terminals() {
    let value = serde_json::to_value(begin_handshake()).unwrap();
    assert_eq!(value["protocolVersion"], 1);
    assert_eq!(value["clientCapabilities"]["fs"]["readTextFile"], true);
    assert_eq!(value["clientCapabilities"]["fs"]["writeTextFile"], true);
    assert_eq!(value["clientCapabilities"]["terminal"], true);
}

#[test]
fn the_handshake_creates_a_session() {
    let mut conversation = AcpConversation::start(Ok(7u32));
    let HandshakeStep::NewSession { auth_methods, request } =
        after_initialize(Ok(auth_methods()), "/work".into())
    else {
        panic!("expected session/new");
    };
    let value = serde_json::to_value(request).unwrap();
    assert_eq!(value["cwd"], "/work");
    let Ok(handshake) = after_new_session(auth_methods, Ok("s1".to_string())) else {
        panic!("expected a session");
    };
    conversation.handshake_finished(Ok(handshake));
    assert_eq!(conversation.status(), &AcpConversationStatus::Idle);
    assert_eq!(conversation.session_id.as_deref(), Some("s1"));
    assert_eq!(conversation.auth_methods().len(), 1);
    assert_eq!(conversation.cancel(), Some((&7, "s1")));
}

#[test]
fn a_session_can_need_authentication() {
    let mut conversation = AcpConversation::start(Ok(7u32));
    let Ok(handshake) = after_new_session(auth_methods(), Err(failure())) else {
        panic!("expected a request to authenticate");
    };
    conversation.handshake_finished(Ok(handshake));
    assert_eq!(conversation.status(), &AcpConversationStatus::NeedsAuthentication);
    assert_eq!(conversation.auth_methods().len(), 1);
    assert!(conversation.prompt("hi".to_string()).is_none());
    assert!(conversation.items().is_empty());
}

#[test]
fn a_session_can_fail() {
    let mut conversation = AcpConversation::start(Ok(7u32));
    let result = after_new_session(Vec::new(), Err(failure()));
    assert!(matches!(&result, Err(error) if *error == failure()));
    conversation.handshake_finished(result);
    assert_eq!(
        conversation.status(),
        &AcpConversationStatus::Failed("ACP request session/new failed: closed".to_string())
    );
    assert!(matches!(
        after_initialize(Err(failure()), "/".into()),
        HandshakeStep::Failed(error) if error == failure()
    ));
}

#[test]
fn a_prompt_turn_runs_and_stops() {
    let mut conversation = AcpConversation::start(Ok(7u32));
    assert!(conversation.prompt("too early".to_string()).is_none());
    conversation.handshake_finished(Ok(Handshake {
        auth_methods: Vec::new(),
        session_id: Some("s1".to_string()),
    }));
    let (request, event) = conversation.prompt("go".to_string()).expect("a request");
    assert_eq!(event, AcpConversationEvent::Updated);
    let value = serde_json::to_value(request).unwrap();
    assert_eq!(value["sessionId"], "s1");
    assert_eq!(value["prompt"][0]["type"], "text");
    assert_eq!(value["prompt"][0]["text"], "go");
    assert_eq!(value["prompt"].as_array().unwrap().len(), 1);
    assert_eq!(conversation.status(), &AcpConversationStatus::Running);
    assert_eq!(
        conversation.items(),
        &[AcpConversationItem::UserMessage {
            markdown: "go".to_string()
        }]
    );

    conversation.prompt_finished(Ok(StopReason::EndTurn));
    assert_eq!(
        conversation.status(),
        &AcpConversationStatus::Stopped(StopReason::EndTurn)
    );
    conversation.prompt_finished(Err(failure()));
    assert_eq!(
        conversation.status(),
        &AcpConversationStatus::Failed("ACP request session/new failed: closed".to_string())
    );
}

#[test]
fn the_same_update_twice_is_the_same_update_once() {
    let mut conversation = empty_conversation();
    conversation.apply_update(SessionUpdate::ToolCall(tool_call("tc", "first")));
    for _ in 0..2 {
        let mut fields = ToolCallUpdateFields::default();
        fields.title = Some("second".to_string());
        conversation.apply_update(tool_call_update("tc", fields));
        assert_eq!(
            conversation.items(),
            &[AcpConversationItem::ToolCall(tool_call("tc", "second"))]
        );
    }
}

#[test]
fn there_is_never_more_than_one_plan() {
    let mut conversation = empty_conversation();
    for _ in 0..3 {
        conversation.apply_update(SessionUpdate::Plan(schema::Plan::new(vec![])));
        conversation.apply_update(SessionUpdate::ToolCall(tool_call("tc", "t")));
    }
    let plans = conversation
        .items()
        .iter()
        .filter(|item| matches!(item, AcpConversationItem::Plan(_)))
        .count();
    assert_eq!(plans, 1);
    assert_eq!(conversation.items().len(), 4);
}
