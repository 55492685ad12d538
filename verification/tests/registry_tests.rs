use acp::registry::{
    bound_turn_with_id, prompt_blocks, prompt_text, try_acp_response_stream, AIAgentInput,
    AcpBinding, AcpConversationRegistry, RequestParams, Task,
};
use acp::response::{ClientAction, ResponseEvent};
use acp::response_stream_driver::TurnEvent;
use acp::session::{ChunkContent, ContentChunk, SessionEvent, SessionUpdate};
use agent_client_protocol_schema::v1 as schema;

fn task(id: &str) -> Task {
    Task { id: id.to_string() }
}

fn binding(connection: u32) -> AcpBinding<u32> {
    AcpBinding {
        connection,
        session_id: format!("s{connection}"),
        conversation_id: format!("c{connection}"),
    }
}

fn user_query(query: &str) -> AIAgentInput {
    AIAgentInput::UserQuery { query: query.to_string() }
}

#[test]
fn binding_lookup_matches_any_request_task() {
    let mut registry: AcpConversationRegistry<u32> = AcpConversationRegistry::default();
    assert!(registry.binding_for_tasks(&[task("t1")]).is_none());

    let tasks = [task("other"), task("t1")];
    assert!(registry.binding_for_tasks(&tasks).is_none());
    assert!(registry.unregister("t1").is_none());

    registry.register("t1".to_string(), binding(1));
    let found = registry.binding_for_tasks(&tasks).expect("bound");
    assert_eq!(found.connection, 1);
    assert!(registry.binding_for_tasks(&[]).is_none());
    assert_eq!(registry.unregister("t1").expect("bound").session_id, "s1");
    assert!(registry.binding_for_tasks(&tasks).is_none());
}

#[test]
fn the_first_bound_task_decides_and_the_last_binding_counts() {
    let mut registry = AcpConversationRegistry::default();
    registry.register("a".to_string(), binding(1));
    registry.register("b".to_string(), binding(2));
    let found = registry.binding_for_tasks(&[task("x"), task("b"), task("a")]);
    assert_eq!(found.expect("bound").connection, 2);
    registry.register("b".to_string(), binding(3));
    let found = registry.binding_for_tasks(&[task("b"), task("a")]);
    assert_eq!(found.expect("bound").connection, 3);
}

#[test]
fn prompt_blocks_join_query_inputs_and_skip_others() {
    let inputs = vec![
        user_query("first"),
        AIAgentInput::ResumeConversation,
        user_query("second"),
    ];
    let blocks = prompt_blocks(&inputs);
    assert_eq!(blocks.len(), 1);
    let schema::ContentBlock::Text(text) = &blocks[0] else {
        panic!("expected text block");
    };
    assert_eq!(text.text, "first\nsecond");
}

#[test]
fn prompt_text_covers_both_kinds_of_queries() {
    assert_eq!(prompt_text(&[]), "");
    assert_eq!(prompt_text(&[AIAgentInput::Other]), "");
    assert_eq!(
        prompt_text(&[
            AIAgentInput::AutoCodeDiffQuery { query: "fix".to_string() },
            AIAgentInput::Other,
            user_query(""),
            user_query("ü"),
        ]),
        "fix\n\nü"
    );
}

fn params(tasks: &[&str]) -> RequestParams {
    RequestParams {
        tasks: tasks.iter().map(|id| task(id)).collect(),
        input: vec![user_query("go")],
    }
}

#[test]
fn requests_of_bound_conversations_become_turns() {
    let mut registry = AcpConversationRegistry::default();
    registry.register("t2".to_string(), binding(9));
    let turn = bound_turn_with_id(&registry, &params(&["t1", "t2"]), "req".to_string())
        .expect("a turn");
    assert_eq!(*turn.connection, 9);
    assert_eq!(
        turn.start.init,
        ResponseEvent::Init {
            conversation_id: "c9".to_string(),
            request_id: "req".to_string(),
            run_id: String::new(),
        }
    );
    assert_eq!(turn.start.turn.session_id(), "s9");
    // Messages go to the task that the conversation is bound under.
    let mut running = turn.start.turn;
    let step = running.step(TurnEvent::Updated(SessionEvent {
        session_id: "s9".to_string(),
        update: SessionUpdate::AgentMessageChunk(ContentChunk {
            content: ChunkContent::Text { text: "hi".to_string() },
        }),
    }));
    let Some(Ok(ResponseEvent::ClientActions { actions })) = step.output else {
        panic!("expected client actions");
    };
    let ClientAction::AddMessagesToTask { task_id, messages } = &actions[0] else {
        panic!("expected AddMessagesToTask");
    };
    assert_eq!(task_id, "t2");
    assert_eq!(messages[0].task_id, "t2");
    assert_eq!(messages[0].request_id, "req");
    let value = serde_json::to_value(turn.start.request).unwrap();
    assert_eq!(value["sessionId"], "s9");
    assert_eq!(value["prompt"][0]["text"], "go");
}

#[test]
fn other_requests_are_not_for_an_agent() {
    let mut registry = AcpConversationRegistry::default();
    registry.register("t2".to_string(), binding(9));
    assert!(try_acp_response_stream(&registry, &params(&["t1"])).is_none());
    assert!(try_acp_response_stream(&registry, &params(&[])).is_none());
    let turn = try_acp_response_stream(&registry, &params(&["t2"])).expect("a turn");
    let ResponseEvent::Init { request_id, .. } = turn.start.init else {
        panic!("expected Init");
    };
    assert_eq!(uuid::Uuid::parse_str(&request_id).unwrap().get_version_num(), 4);
}
