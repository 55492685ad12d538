use acp::connection::{
    authenticate_call, authenticate_response, cancel_call, decoded_response, initialize_call,
    initialize_response, session_event,
    load_session_call, load_session_response, new_session_call, new_session_response, prompt_call,
    prompt_response, rpc_call, session_update, session_update_method, RequestError,
    SESSION_UPDATE_CHANNEL_CAPACITY, SHUTDOWN_TIMEOUT_SECS,
};
use acp::dispatch::{
    dispatch_agent_request, encode_client_reply, invalid_params_error, parse_agent_request,
    rpc_reply, value_or_failure, AcpClientDelegate, AgentRequest, ClientReply, DispatchError, RpcReply, JSON_RPC_INTERNAL_ERROR,
    JSON_RPC_METHOD_NOT_FOUND,
};
use acp::session::{ChunkContent, ContentChunk, SessionUpdate};
use acp::transport::{
    agent_stdio, begin_shutdown, frame, next_shutdown_action, read_step, spawn_error, stderr_step, wire_stdio,
    ShutdownAction, ShutdownEvent, StderrRead, StreamSetup,
};
use acp::white_space::{trim, trim_end, white_space};
use agent_client_protocol_schema::v1 as schema;
use serde_json::Value;

struct UnimplementedDelegate;

impl AcpClientDelegate for UnimplementedDelegate {
    fn request_permission(
        &self,
        _request: schema::RequestPermissionRequest,
    ) -> Result<schema::RequestPermissionResponse, String> {
        Err("unimplemented".to_string())
    }

    fn read_text_file(
        &self,
        request: schema::ReadTextFileRequest,
    ) -> Result<schema::ReadTextFileResponse, String> {
        Ok(schema::ReadTextFileResponse::new(format!(
            "contents of {}",
            request.path.display()
        )))
    }

    fn write_text_file(
        &self,
        _request: schema::WriteTextFileRequest,
    ) -> Result<schema::WriteTextFileResponse, String> {
        Err("unimplemented".to_string())
    }

    fn create_terminal(
        &self,
        _request: schema::CreateTerminalRequest,
    ) -> Result<schema::CreateTerminalResponse, String> {
        Ok(schema::CreateTerminalResponse::new("term-1"))
    }

    fn terminal_output(
        &self,
        _request: schema::TerminalOutputRequest,
    ) -> Result<schema::TerminalOutputResponse, String> {
        Ok(schema::TerminalOutputResponse::new("out", true))
    }

    fn wait_for_terminal_exit(
        &self,
        _request: schema::WaitForTerminalExitRequest,
    ) -> Result<schema::WaitForTerminalExitResponse, String> {
        Ok(schema::WaitForTerminalExitResponse::new(
            schema::TerminalExitStatus::new().exit_code(3u32),
        ))
    }

    fn kill_terminal(
        &self,
        _request: schema::KillTerminalRequest,
    ) -> Result<schema::KillTerminalResponse, String> {
        Ok(schema::KillTerminalResponse::new())
    }

    fn release_terminal(
        &self,
        _request: schema::ReleaseTerminalRequest,
    ) -> Result<schema::ReleaseTerminalResponse, String> {
        Err("unimplemented".to_string())
    }
}

fn json(text: &str) -> Value {
    serde_json::from_str(text).unwrap()
}

#[test]
fn dispatch_unknown_method_reports_method_not_found() {
    let delegate = UnimplementedDelegate;
    let result = dispatch_agent_request(&delegate, "some/unknown_method", json("{}"));
    assert!(matches!(result, Err(DispatchError::UnknownMethod)));
}

#[test]
fn dispatch_read_text_file_returns_delegate_response() {
    let delegate = UnimplementedDelegate;
    let result = dispatch_agent_request(
        &delegate,
        schema::CLIENT_METHOD_NAMES.fs_read_text_file,
        json(r#"{"sessionId": "sess-1", "path": "/tmp/file.txt"}"#),
    );
    let value = match result {
        Ok(value) => value,
        Err(DispatchError::UnknownMethod) => panic!("method should be known"),
        Err(DispatchError::Failed(e)) => panic!("dispatch failed: {e}"),
    };
    assert_eq!(value["content"], "contents of /tmp/file.txt");
}

#[test]
fn dispatch_delegate_failure_is_reported() {
    let delegate = UnimplementedDelegate;
    let result = dispatch_agent_request(
        &delegate,
        schema::CLIENT_METHOD_NAMES.fs_write_text_file,
        json(r#"{"sessionId": "sess-1", "path": "/tmp/file.txt", "content": "x"}"#),
    );
    assert!(matches!(&result, Err(DispatchError::Failed(_))));
    assert_eq!(result, Err(DispatchError::Failed("unimplemented".to_string())));
}

#[test]
fn dispatch_invalid_params_is_reported() {
    let delegate = UnimplementedDelegate;
    let result = dispatch_agent_request(
        &delegate,
        schema::CLIENT_METHOD_NAMES.fs_read_text_file,
        json(r#"{"not": "valid"}"#),
    );
    assert!(matches!(&result, Err(DispatchError::Failed(_))));
    let Err(DispatchError::Failed(message)) = result else {
        panic!("expected a failure");
    };
    let cause = serde_json::from_value::<schema::ReadTextFileRequest>(json(r#"{"not": "valid"}"#))
        .unwrap_err();
    assert_eq!(message, format!("Invalid params for fs/read_text_file: {cause}"));
}

#[test]
fn every_client_method_reaches_its_own_request() {
    let names = schema::CLIENT_METHOD_NAMES;
    let session = r#""sessionId": "s""#;
    let terminal = r#""sessionId": "s", "terminalId": "t""#;
    let permission = r#""sessionId": "s", "toolCall": {"toolCallId": "c"}, "options": []"#;
    let cases = [
        (names.session_request_permission, permission, 0),
        (names.fs_read_text_file, r#""sessionId": "s", "path": "/a""#, 1),
        (names.fs_write_text_file, r#""sessionId": "s", "path": "/a", "content": """#, 2),
        (names.terminal_create, r#""sessionId": "s", "command": "ls""#, 3),
        (names.terminal_output, terminal, 4),
        (names.terminal_wait_for_exit, terminal, 5),
        (names.terminal_kill, terminal, 6),
        (names.terminal_release, terminal, 7),
    ];
    for (method, members, expected) in cases {
        let params = json(&format!("{{{members}}}"));
        let Ok(request) = parse_agent_request(method, params) else {
            panic!("{method} should parse");
        };
        let found = match request {
            AgentRequest::RequestPermission(_) => 0,
            AgentRequest::ReadTextFile(_) => 1,
            AgentRequest::WriteTextFile(_) => 2,
            AgentRequest::CreateTerminal(_) => 3,
            AgentRequest::TerminalOutput(_) => 4,
            AgentRequest::WaitForTerminalExit(_) => 5,
            AgentRequest::KillTerminal(_) => 6,
            AgentRequest::ReleaseTerminal(_) => 7,
        };
        assert_eq!(found, expected);
        assert!(matches!(
            parse_agent_request(method, json("null")),
            Err(DispatchError::Failed(_))
        ));
    }
    assert!(matches!(
        parse_agent_request(names.session_update, json(&format!("{{{session}}}"))),
        Err(DispatchError::UnknownMethod)
    ));
}

#[test]
fn answers_are_encoded() {
    let delegate = UnimplementedDelegate;
    let names = schema::CLIENT_METHOD_NAMES;
    let terminal = r#"{"sessionId": "s", "terminalId": "t"}"#;
    let value = dispatch_agent_request(
        &delegate,
        names.terminal_create,
        json(r#"{"sessionId": "s", "command": "ls"}"#),
    );
    assert_eq!(value.unwrap()["terminalId"], "term-1");
    let value = dispatch_agent_request(&delegate, names.terminal_output, json(terminal)).unwrap();
    assert_eq!(value["output"], "out");
    assert_eq!(value["truncated"], true);
    let value =
        dispatch_agent_request(&delegate, names.terminal_wait_for_exit, json(terminal)).unwrap();
    assert_eq!(value["exitCode"], 3);
    assert!(dispatch_agent_request(&delegate, names.terminal_kill, json(terminal)).is_ok());
    assert!(dispatch_agent_request(&delegate, names.terminal_release, json(terminal)).is_err());

    let permission =
        schema::RequestPermissionResponse::new(schema::RequestPermissionOutcome::Cancelled);
    let value = encode_client_reply(ClientReply::RequestPermission(permission)).unwrap();
    assert_eq!(value["outcome"]["outcome"], "cancelled");
    let written = ClientReply::WriteTextFile(schema::WriteTextFileResponse::new());
    assert_eq!(encode_client_reply(written).unwrap(), json("{}"));
    let released = ClientReply::ReleaseTerminal(schema::ReleaseTerminalResponse::new());
    assert_eq!(encode_client_reply(released).unwrap(), json("{}"));
}

#[test]
fn answers_that_cannot_be_encoded_are_failures() {
    assert_eq!(
        value_or_failure(Err("too deep".to_string())),
        Err(DispatchError::Failed("Failed to encode response: too deep".to_string()))
    );
    assert!(matches!(
        rpc_call("m", Err("too deep".to_string())),
        Err(RequestError::Encode { cause }) if cause == "too deep"
    ));
    assert_eq!(
        invalid_params_error("a/b", "bad"),
        DispatchError::Failed("Invalid params for a/b: bad".to_string())
    );
    assert_eq!(
        decoded_response::<()>("a/b", Err("bad".to_string())),
        Err(RequestError::Response { method: "a/b".to_string(), cause: "bad".to_string() })
    );
}

#[test]
fn replies_carry_codes() {
    assert_eq!(JSON_RPC_METHOD_NOT_FOUND, -32601);
    assert_eq!(JSON_RPC_INTERNAL_ERROR, -32603);
    assert!(matches!(
        rpc_reply("x/y", Ok(json("1"))),
        RpcReply::Result(value) if value == json("1")
    ));
    assert!(matches!(
        rpc_reply("x/y", Err(DispatchError::UnknownMethod)),
        RpcReply::Error { code: -32601, message } if message == "Method x/y not implemented"
    ));
    assert!(matches!(
        rpc_reply("x/y", Err(DispatchError::Failed("no".to_string()))),
        RpcReply::Error { code: -32603, message } if message == "no"
    ));
}

#[test]
fn requests_are_encoded_under_their_method() {
    let call = initialize_call(schema::InitializeRequest::new(1u16.into())).expect("a call");
    assert_eq!(call.method, "initialize");
    assert_eq!(call.params["protocolVersion"], 1);
    let call = authenticate_call(schema::AuthenticateRequest::new("login")).expect("a call");
    assert_eq!(call.method, "authenticate");
    assert_eq!(call.params["methodId"], "login");
    let call = new_session_call(schema::NewSessionRequest::new("/w")).expect("a call");
    assert_eq!(call.method, "session/new");
    assert_eq!(call.params["cwd"], "/w");
    let call = load_session_call(schema::LoadSessionRequest::new("s", "/w")).expect("a call");
    assert_eq!(call.method, "session/load");
    assert_eq!(call.params["sessionId"], "s");
    let call = prompt_call(schema::PromptRequest::new("s", Vec::new())).expect("a call");
    assert_eq!(call.method, "session/prompt");
    assert_eq!(call.params["sessionId"], "s");
    let call = cancel_call("s".to_string()).expect("a call");
    assert_eq!(call.method, "session/cancel");
    assert_eq!(call.params["sessionId"], "s");
}

#[test]
fn responses_are_decoded() {
    let response = initialize_response(Ok(json(r#"{"protocolVersion": 1}"#))).expect("a response");
    assert!(response.auth_methods.is_empty());
    assert!(authenticate_response(Ok(json("{}"))).is_ok());
    let response = new_session_response(Ok(json(r#"{"sessionId": "s"}"#))).expect("a response");
    assert_eq!(response.session_id.to_string(), "s");
    assert!(load_session_response(Ok(json("{}"))).is_ok());
    let response =
        prompt_response(Ok(json(r#"{"stopReason": "refusal"}"#))).expect("a response");
    assert_eq!(response.stop_reason, schema::StopReason::Refusal);
}

#[test]
fn failed_requests_say_what_failed() {
    let error = prompt_response(Err("closed".to_string())).unwrap_err();
    assert_eq!(error.describe(), "ACP request session/prompt failed: closed");
    let error = new_session_response(Ok(json("[]"))).unwrap_err();
    assert!(error
        .describe()
        .starts_with("Failed to parse ACP response for session/new: "));
    assert!(matches!(
        load_session_response(Err(String::new())),
        Err(RequestError::Failed { method, .. }) if method == "session/load"
    ));
    assert!(matches!(
        authenticate_response(Err(String::new())),
        Err(RequestError::Failed { method, .. }) if method == "authenticate"
    ));
    assert!(matches!(
        initialize_response(Ok(json("3"))),
        Err(RequestError::Response { method, .. }) if method == "initialize"
    ));
    let error = RequestError::Encode { cause: "too deep".to_string() };
    assert_eq!(error.describe(), "too deep");
}

#[test]
fn session_updates_are_typed_and_garbage_is_dropped() {
    assert_eq!(session_update_method(), "session/update");
    let params = json(
        r#"{"sessionId":"s1","update":{"sessionUpdate":"agent_message_chunk","content":{"type":"text","text":"hi"}}}"#,
    );
    let notification = session_update(params).expect("an update");
    assert_eq!(notification.session_id.to_string(), "s1");
    let cause = serde_json::from_value::<schema::SessionNotification>(json("{}")).unwrap_err();
    assert_eq!(session_update(json("{}")).unwrap_err(), cause.to_string());
}

fn update_of(update: &str) -> SessionUpdate {
    let params = json(&format!("{{\"sessionId\":\"s1\",\"update\":{update}}}"));
    let event = session_event(&session_update(params).expect("an update"));
    assert_eq!(event.session_id, "s1");
    event.update
}

#[test]
fn session_updates_become_events() {
    let text = ChunkContent::Text { text: "hi".to_string() };
    let content = r#""content":{"type":"text","text":"hi"}"#;
    assert_eq!(
        update_of(&format!("{{\"sessionUpdate\":\"user_message_chunk\",{content}}}")),
        SessionUpdate::UserMessageChunk(ContentChunk { content: text })
    );
    let link = r#""content":{"type":"resource_link","name":"n","uri":"file:///a"}"#;
    assert_eq!(
        update_of(&format!("{{\"sessionUpdate\":\"agent_thought_chunk\",{link}}}")),
        SessionUpdate::AgentThoughtChunk(ContentChunk {
            content: ChunkContent::ResourceLink { uri: "file:///a".to_string() }
        })
    );
    let image = r#""content":{"type":"image","data":"","mimeType":"image/png"}"#;
    assert_eq!(
        update_of(&format!("{{\"sessionUpdate\":\"agent_message_chunk\",{image}}}")),
        SessionUpdate::AgentMessageChunk(ContentChunk { content: ChunkContent::Image })
    );
    let SessionUpdate::ToolCall(call) = update_of(
        r#"{"sessionUpdate":"tool_call","toolCallId":"tc","title":"T","kind":"edit","status":"completed","rawInput":1,"rawOutput":2,"locations":[{"path":"/a"}],"_meta":{"k":"v"}}"#,
    ) else {
        panic!("expected a tool call");
    };
    assert_eq!(call.tool_call_id, "tc");
    assert_eq!(call.title, "T");
    assert_eq!(call.kind, schema::ToolKind::Edit);
    assert_eq!(call.status, schema::ToolCallStatus::Completed);
    assert_eq!(call.raw_input, Some(json("1")));
    assert_eq!(call.raw_output, Some(json("2")));
    assert_eq!(call.locations.len(), 1);
    assert!(call.content.is_empty());
    assert_eq!(call.meta.unwrap()["k"], "v");
    let SessionUpdate::ToolCallUpdate(update) = update_of(
        r#"{"sessionUpdate":"tool_call_update","toolCallId":"tc","title":"U","status":"failed"}"#,
    ) else {
        panic!("expected a tool call update");
    };
    assert_eq!(update.tool_call_id, "tc");
    assert_eq!(update.fields.title.as_deref(), Some("U"));
    assert_eq!(update.fields.status, Some(schema::ToolCallStatus::Failed));
    assert_eq!(update.fields.kind, None);
    assert_eq!(
        update_of(r#"{"sessionUpdate":"plan","entries":[]}"#),
        SessionUpdate::Plan(schema::Plan::new(vec![]))
    );
    assert_eq!(
        update_of(r#"{"sessionUpdate":"available_commands_update","availableCommands":[]}"#),
        SessionUpdate::AvailableCommandsUpdate
    );
    assert_eq!(
        update_of(r#"{"sessionUpdate":"current_mode_update","currentModeId":"m"}"#),
        SessionUpdate::CurrentModeUpdate
    );
}

#[test]
fn limits_of_a_connection() {
    assert_eq!(SESSION_UPDATE_CHANNEL_CAPACITY, 1024);
    assert_eq!(SHUTDOWN_TIMEOUT_SECS, 3);
}

/// Frames go out as lines and come back as messages, blank lines are skipped,
/// and the end of the stream is an empty message.
#[test]
fn ndjson_transport_round_trip_through_cat() {
    let first = r#"{"jsonrpc":"2.0","id":1,"method":"initialize","params":{}}"#;
    let second = r#"{"jsonrpc":"2.0","method":"session/update","params":{"k":"v"}}"#;
    let mut stream = String::new();
    stream.push_str(&frame(first).unwrap());
    stream.push('\n');
    stream.push_str(&frame(second).unwrap());

    let mut messages = Vec::new();
    for line in stream.split_inclusive('\n') {
        if let Some(message) = read_step(line.len(), line) {
            messages.push(message);
        }
    }
    assert_eq!(messages, vec![first, second]);

    // Messages containing raw newlines must be rejected, not corrupt the stream.
    assert!(frame("{\n}").is_err());

    // At the end of the stream, read returns an empty string.
    assert_eq!(read_step(0, "").unwrap(), "");
}

#[test]
fn frames_end_with_the_only_line_feed() {
    assert_eq!(frame("x").unwrap(), "x\n");
    assert_eq!(frame("").unwrap(), "\n");
    assert_eq!(
        frame("a\nb").unwrap_err(),
        "NDJSON message must not contain newlines"
    );
}

#[test]
fn lines_are_trimmed() {
    assert_eq!(read_step(5, " {} \r\n").unwrap(), "{}");
    assert_eq!(read_step(2, " \n"), None);
    assert_eq!(read_step(4, "\u{2003}\n"), None);
    for text in ["", " ", "a", " a", "a ", "\u{3000}ä b\u{85}\n", "\t\u{200b}\t", "  \r\n  "] {
        assert_eq!(trim(text), text.trim());
        assert_eq!(trim_end(text), text.trim_end());
    }
}

#[test]
fn white_space_is_that_of_unicode() {
    for c in '\0'..=char::MAX {
        assert_eq!(white_space(c), c.is_whitespace());
    }
}

#[test]
fn stdio_must_be_complete() {
    let stdio = agent_stdio();
    assert_eq!(stdio.stdin, StreamSetup::Piped);
    assert_eq!(stdio.stdout, StreamSetup::Piped);
    assert_eq!(stdio.stderr, StreamSetup::Piped);
    assert_eq!(wire_stdio(Some(1), Some('o'), Some("e")), Ok((1, 'o', "e")));
    assert_eq!(
        wire_stdio(None::<u8>, None::<u8>, None::<u8>),
        Err("Failed to get agent stdin".to_string())
    );
    assert_eq!(
        wire_stdio(Some(1), None::<u8>, None::<u8>),
        Err("Failed to get agent stdout".to_string())
    );
    assert_eq!(
        wire_stdio(Some(1), Some(2), None::<u8>),
        Err("Failed to get agent stderr".to_string())
    );
    assert_eq!(
        spawn_error("not found"),
        "Failed to spawn ACP agent process: not found"
    );
}

#[test]
fn stderr_is_mirrored() {
    let step = stderr_step(StderrRead::Line("oops \r\n".to_string()));
    assert_eq!(step.log.as_deref(), Some("[stderr] oops"));
    assert!(step.read_on);
    let step = stderr_step(StderrRead::Failed("broken".to_string()));
    assert_eq!(step.log.as_deref(), Some("[error] Error reading stderr: broken"));
    assert!(!step.read_on);
    let step = stderr_step(StderrRead::Closed);
    assert_eq!(step.log, None);
    assert!(!step.read_on);
}

fn shut_down(events: &[ShutdownEvent], has_signals: bool) -> Vec<ShutdownAction> {
    let mut action = begin_shutdown(true);
    let mut actions = vec![action];
    for event in events {
        action = next_shutdown_action(action, *event, has_signals);
        actions.push(action);
    }
    actions
}

#[test]
fn shutdown_escalates() {
    assert_eq!(begin_shutdown(false), ShutdownAction::Finished);
    assert_eq!(
        shut_down(&[ShutdownEvent::Exited, ShutdownEvent::StderrJoined], true),
        vec![
            ShutdownAction::AwaitExit,
            ShutdownAction::JoinStderr,
            ShutdownAction::Finished
        ]
    );
    assert_eq!(
        shut_down(
            &[
                ShutdownEvent::TimedOut,
                ShutdownEvent::TerminateSent,
                ShutdownEvent::TimedOut,
                ShutdownEvent::Killed,
                ShutdownEvent::StderrJoined
            ],
            true
        ),
        vec![
            ShutdownAction::AwaitExit,
            ShutdownAction::Terminate,
            ShutdownAction::Grace,
            ShutdownAction::Kill,
            ShutdownAction::JoinStderr,
            ShutdownAction::Finished
        ]
    );
    assert_eq!(
        shut_down(&[ShutdownEvent::TimedOut, ShutdownEvent::TerminateFailed], true),
        vec![
            ShutdownAction::AwaitExit,
            ShutdownAction::Terminate,
            ShutdownAction::Kill
        ]
    );
    assert_eq!(
        shut_down(&[ShutdownEvent::TimedOut], false),
        vec![ShutdownAction::AwaitExit, ShutdownAction::Kill]
    );
}
