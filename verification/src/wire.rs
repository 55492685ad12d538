//! The calls into `serde_json` and `agent_client_protocol_schema`.
//!
//! Every function here makes one call (or builds one value) of these crates and
//! does nothing else. What the calls return is a function of their arguments
//! alone; each has a name for it, and the contracts of the library speak of
//! those names. An error of `serde_json` is handed on as the text that it is
//! displayed as: `to_value` and `from_value` make no error whose text comes from
//! the system.

use std::path::PathBuf;

use agent_client_protocol_schema::v1 as schema;
use serde_json::Value;
use vstd::prelude::*;

use crate::session::{
    ChunkContent, ChunkContentView, StopReason, ToolCall, ToolCallUpdate, ToolCallUpdateFields,
    ToolCallUpdateView, ToolCallView, UpdateKind,
};

verus! {

/// The method names of requests and notifications from the client to the agent.
pub struct AgentMethods {
    pub initialize: &'static str,
    pub authenticate: &'static str,
    pub session_new: &'static str,
    pub session_load: &'static str,
    pub session_prompt: &'static str,
    pub session_cancel: &'static str,
}

/// Reads `schema::AGENT_METHOD_NAMES`; the contract gives the name behind each field.
#[verifier::external_body]
pub(crate) fn agent_methods() -> (names: AgentMethods)
    ensures
        names.initialize@ == "initialize"@,
        names.authenticate@ == "authenticate"@,
        names.session_new@ == "session/new"@,
        names.session_load@ == "session/load"@,
        names.session_prompt@ == "session/prompt"@,
        names.session_cancel@ == "session/cancel"@,
{
    AgentMethods {
        initialize: schema::AGENT_METHOD_NAMES.initialize,
        authenticate: schema::AGENT_METHOD_NAMES.authenticate,
        session_new: schema::AGENT_METHOD_NAMES.session_new,
        session_load: schema::AGENT_METHOD_NAMES.session_load,
        session_prompt: schema::AGENT_METHOD_NAMES.session_prompt,
        session_cancel: schema::AGENT_METHOD_NAMES.session_cancel,
    }
}

/// The method names of requests and notifications from the agent to the client.
pub struct ClientMethods {
    pub session_update: &'static str,
    pub session_request_permission: &'static str,
    pub fs_read_text_file: &'static str,
    pub fs_write_text_file: &'static str,
    pub terminal_create: &'static str,
    pub terminal_output: &'static str,
    pub terminal_wait_for_exit: &'static str,
    pub terminal_kill: &'static str,
    pub terminal_release: &'static str,
}

/// Reads `schema::CLIENT_METHOD_NAMES`; the contract gives the name behind each field.
#[verifier::external_body]
pub(crate) fn client_methods() -> (names: ClientMethods)
    ensures
        names.session_update@ == "session/update"@,
        names.session_request_permission@ == "session/request_permission"@,
        names.fs_read_text_file@ == "fs/read_text_file"@,
        names.fs_write_text_file@ == "fs/write_text_file"@,
        names.terminal_create@ == "terminal/create"@,
        names.terminal_output@ == "terminal/output"@,
        names.terminal_wait_for_exit@ == "terminal/wait_for_exit"@,
        names.terminal_kill@ == "terminal/kill"@,
        names.terminal_release@ == "terminal/release"@,
{
    ClientMethods {
        session_update: schema::CLIENT_METHOD_NAMES.session_update,
        session_request_permission: schema::CLIENT_METHOD_NAMES.session_request_permission,
        fs_read_text_file: schema::CLIENT_METHOD_NAMES.fs_read_text_file,
        fs_write_text_file: schema::CLIENT_METHOD_NAMES.fs_write_text_file,
        terminal_create: schema::CLIENT_METHOD_NAMES.terminal_create,
        terminal_output: schema::CLIENT_METHOD_NAMES.terminal_output,
        terminal_wait_for_exit: schema::CLIENT_METHOD_NAMES.terminal_wait_for_exit,
        terminal_kill: schema::CLIENT_METHOD_NAMES.terminal_kill,
        terminal_release: schema::CLIENT_METHOD_NAMES.terminal_release,
    }
}

/// A result with its error text taken as characters.
pub open spec fn text_error<T>(result: Result<T, String>) -> Result<T, Seq<char>> {
    match result {
        Ok(value) => Ok(value),
        Err(text) => Err(text@),
    }
}

/// The content block that holds `text` and nothing else.
pub uninterp spec fn text_block_of(text: Seq<char>) -> schema::ContentBlock;

/// `schema::ContentBlock::Text` around `schema::TextContent::new`, named by [`text_block_of`].
#[verifier::external_body]
pub(crate) fn text_block(text: String) -> (block: schema::ContentBlock)
    ensures
        block == text_block_of(text@),
{
    schema::ContentBlock::Text(schema::TextContent::new(text))
}

/// The `initialize` request for a protocol version and for what the client
/// offers: reading files, writing files, running terminals.
pub uninterp spec fn initialize_request_of(
    protocol_version: u16,
    read_text_file: bool,
    write_text_file: bool,
    terminal: bool,
) -> schema::InitializeRequest;

/// `schema::InitializeRequest::new` with `client_capabilities`, named by
/// [`initialize_request_of`].
#[verifier::external_body]
pub(crate) fn initialize_request(
    protocol_version: u16,
    read_text_file: bool,
    write_text_file: bool,
    terminal: bool,
) -> (request: schema::InitializeRequest)
    ensures
        request == initialize_request_of(
            protocol_version,
            read_text_file,
            write_text_file,
            terminal,
        ),
{
    let fs = schema::FileSystemCapabilities::new()
        .read_text_file(read_text_file)
        .write_text_file(write_text_file);
    schema::InitializeRequest::new(protocol_version.into())
        .client_capabilities(schema::ClientCapabilities::new().fs(fs).terminal(terminal))
}

/// The `session/new` request for a working directory.
pub uninterp spec fn new_session_request_of(cwd: PathBuf) -> schema::NewSessionRequest;

/// `schema::NewSessionRequest::new`, named by [`new_session_request_of`].
#[verifier::external_body]
pub(crate) fn new_session_request(cwd: PathBuf) -> (request: schema::NewSessionRequest)
    ensures
        request == new_session_request_of(cwd),
{
    schema::NewSessionRequest::new(cwd)
}

/// The `session/prompt` request for a session and the blocks of the prompt.
pub uninterp spec fn prompt_request_of(
    session_id: Seq<char>,
    prompt: Seq<schema::ContentBlock>,
) -> schema::PromptRequest;

/// `schema::PromptRequest::new`, named by [`prompt_request_of`].
#[verifier::external_body]
pub(crate) fn prompt_request(session_id: String, prompt: Vec<schema::ContentBlock>) -> (request:
    schema::PromptRequest)
    ensures
        request == prompt_request_of(session_id@, prompt@),
{
    schema::PromptRequest::new(session_id, prompt)
}

/// The parameters of `InitializeRequest` as JSON.
pub uninterp spec fn initialize_params(value: schema::InitializeRequest) -> Result<
    Value,
    Seq<char>,
>;

/// `serde_json::to_value` on `schema::InitializeRequest`, named by [`initialize_params`].
#[verifier::external_body]
pub(crate) fn encode_initialize(value: schema::InitializeRequest) -> (encoded: Result<
    Value,
    String,
>)
    ensures
        text_error(encoded) == initialize_params(value),
{
    serde_json::to_value(value).map_err(|error| error.to_string())
}

/// The parameters of `AuthenticateRequest` as JSON.
pub uninterp spec fn authenticate_params(value: schema::AuthenticateRequest) -> Result<
    Value,
    Seq<char>,
>;

/// `serde_json::to_value` on `schema::AuthenticateRequest`, named by [`authenticate_params`].
#[verifier::external_body]
pub(crate) fn encode_authenticate(value: schema::AuthenticateRequest) -> (encoded: Result<
    Value,
    String,
>)
    ensures
        text_error(encoded) == authenticate_params(value),
{
    serde_json::to_value(value).map_err(|error| error.to_string())
}

/// The parameters of `NewSessionRequest` as JSON.
pub uninterp spec fn new_session_params(value: schema::NewSessionRequest) -> Result<
    Value,
    Seq<char>,
>;

/// `serde_json::to_value` on `schema::NewSessionRequest`, named by [`new_session_params`].
#[verifier::external_body]
pub(crate) fn encode_new_session(value: schema::NewSessionRequest) -> (encoded: Result<
    Value,
    String,
>)
    ensures
        text_error(encoded) == new_session_params(value),
{
    serde_json::to_value(value).map_err(|error| error.to_string())
}

/// The parameters of `LoadSessionRequest` as JSON.
pub uninterp spec fn load_session_params(value: schema::LoadSessionRequest) -> Result<
    Value,
    Seq<char>,
>;

/// `serde_json::to_value` on `schema::LoadSessionRequest`, named by [`load_session_params`].
#[verifier::external_body]
pub(crate) fn encode_load_session(value: schema::LoadSessionRequest) -> (encoded: Result<
    Value,
    String,
>)
    ensures
        text_error(encoded) == load_session_params(value),
{
    serde_json::to_value(value).map_err(|error| error.to_string())
}

/// The parameters of `PromptRequest` as JSON.
pub uninterp spec fn prompt_params(value: schema::PromptRequest) -> Result<
    Value,
    Seq<char>,
>;

/// `serde_json::to_value` on `schema::PromptRequest`, named by [`prompt_params`].
#[verifier::external_body]
pub(crate) fn encode_prompt(value: schema::PromptRequest) -> (encoded: Result<
    Value,
    String,
>)
    ensures
        text_error(encoded) == prompt_params(value),
{
    serde_json::to_value(value).map_err(|error| error.to_string())
}

/// The parameters of `session/cancel` for a session, as JSON.
pub uninterp spec fn cancel_params(session_id: Seq<char>) -> Result<Value, Seq<char>>;

/// `serde_json::to_value` on `schema::CancelNotification::new`, named by [`cancel_params`].
#[verifier::external_body]
pub(crate) fn encode_cancel(session_id: String) -> (encoded: Result<Value, String>)
    ensures
        text_error(encoded) == cancel_params(session_id@),
{
    serde_json::to_value(schema::CancelNotification::new(session_id)).map_err(|error| error.to_string())
}

/// The `InitializeResponse` that a JSON value says.
pub uninterp spec fn initialize_result(value: Value) -> Result<
    schema::InitializeResponse,
    Seq<char>,
>;

/// `serde_json::from_value` to `schema::InitializeResponse`, named by [`initialize_result`].
#[verifier::external_body]
pub(crate) fn decode_initialize(value: Value) -> (decoded: Result<
    schema::InitializeResponse,
    String,
>)
    ensures
        text_error(decoded) == initialize_result(value),
{
    serde_json::from_value(value).map_err(|error| error.to_string())
}

/// The `AuthenticateResponse` that a JSON value says.
pub uninterp spec fn authenticate_result(value: Value) -> Result<
    schema::AuthenticateResponse,
    Seq<char>,
>;

/// `serde_json::from_value` to `schema::AuthenticateResponse`, named by [`authenticate_result`].
#[verifier::external_body]
pub(crate) fn decode_authenticate(value: Value) -> (decoded: Result<
    schema::AuthenticateResponse,
    String,
>)
    ensures
        text_error(decoded) == authenticate_result(value),
{
    serde_json::from_value(value).map_err(|error| error.to_string())
}

/// The `NewSessionResponse` that a JSON value says.
pub uninterp spec fn new_session_result(value: Value) -> Result<
    schema::NewSessionResponse,
    Seq<char>,
>;

/// `serde_json::from_value` to `schema::NewSessionResponse`, named by [`new_session_result`].
#[verifier::external_body]
pub(crate) fn decode_new_session(value: Value) -> (decoded: Result<
    schema::NewSessionResponse,
    String,
>)
    ensures
        text_error(decoded) == new_session_result(value),
{
    serde_json::from_value(value).map_err(|error| error.to_string())
}

/// The `LoadSessionResponse` that a JSON value says.
pub uninterp spec fn load_session_result(value: Value) -> Result<
    schema::LoadSessionResponse,
    Seq<char>,
>;

/// `serde_json::from_value` to `schema::LoadSessionResponse`, named by [`load_session_result`].
#[verifier::external_body]
pub(crate) fn decode_load_session(value: Value) -> (decoded: Result<
    schema::LoadSessionResponse,
    String,
>)
    ensures
        text_error(decoded) == load_session_result(value),
{
    serde_json::from_value(value).map_err(|error| error.to_string())
}

/// The `PromptResponse` that a JSON value says.
pub uninterp spec fn prompt_result(value: Value) -> Result<
    schema::PromptResponse,
    Seq<char>,
>;

/// `serde_json::from_value` to `schema::PromptResponse`, named by [`prompt_result`].
#[verifier::external_body]
pub(crate) fn decode_prompt(value: Value) -> (decoded: Result<
    schema::PromptResponse,
    String,
>)
    ensures
        text_error(decoded) == prompt_result(value),
{
    serde_json::from_value(value).map_err(|error| error.to_string())
}

/// The `SessionNotification` that a JSON value says.
pub uninterp spec fn session_update_of(value: Value) -> Result<
    schema::SessionNotification,
    Seq<char>,
>;

/// `serde_json::from_value` to `schema::SessionNotification`, named by [`session_update_of`].
#[verifier::external_body]
pub(crate) fn decode_session_update(value: Value) -> (decoded: Result<
    schema::SessionNotification,
    String,
>)
    ensures
        text_error(decoded) == session_update_of(value),
{
    serde_json::from_value(value).map_err(|error| error.to_string())
}

/// The `RequestPermissionRequest` that a JSON value says.
pub uninterp spec fn request_permission_request(value: Value) -> Result<
    schema::RequestPermissionRequest,
    Seq<char>,
>;

/// `serde_json::from_value` to `schema::RequestPermissionRequest`,
/// named by [`request_permission_request`].
#[verifier::external_body]
pub(crate) fn parse_request_permission(value: Value) -> (decoded: Result<
    schema::RequestPermissionRequest,
    String,
>)
    ensures
        text_error(decoded) == request_permission_request(value),
{
    serde_json::from_value(value).map_err(|error| error.to_string())
}

/// The `ReadTextFileRequest` that a JSON value says.
pub uninterp spec fn read_text_file_request(value: Value) -> Result<
    schema::ReadTextFileRequest,
    Seq<char>,
>;

/// `serde_json::from_value` to `schema::ReadTextFileRequest`, named by [`read_text_file_request`].
#[verifier::external_body]
pub(crate) fn parse_read_text_file(value: Value) -> (decoded: Result<
    schema::ReadTextFileRequest,
    String,
>)
    ensures
        text_error(decoded) == read_text_file_request(value),
{
    serde_json::from_value(value).map_err(|error| error.to_string())
}

/// The `WriteTextFileRequest` that a JSON value says.
pub uninterp spec fn write_text_file_request(value: Value) -> Result<
    schema::WriteTextFileRequest,
    Seq<char>,
>;

/// `serde_json::from_value` to `schema::WriteTextFileRequest`,
/// named by [`write_text_file_request`].
#[verifier::external_body]
pub(crate) fn parse_write_text_file(value: Value) -> (decoded: Result<
    schema::WriteTextFileRequest,
    String,
>)
    ensures
        text_error(decoded) == write_text_file_request(value),
{
    serde_json::from_value(value).map_err(|error| error.to_string())
}

/// The `CreateTerminalRequest` that a JSON value says.
pub uninterp spec fn create_terminal_request(value: Value) -> Result<
    schema::CreateTerminalRequest,
    Seq<char>,
>;

/// `serde_json::from_value` to `schema::CreateTerminalRequest`,
/// named by [`create_terminal_request`].
#[verifier::external_body]
pub(crate) fn parse_create_terminal(value: Value) -> (decoded: Result<
    schema::CreateTerminalRequest,
    String,
>)
    ensures
        text_error(decoded) == create_terminal_request(value),
{
    serde_json::from_value(value).map_err(|error| error.to_string())
}

/// The `TerminalOutputRequest` that a JSON value says.
pub uninterp spec fn terminal_output_request(value: Value) -> Result<
    schema::TerminalOutputRequest,
    Seq<char>,
>;

/// `serde_json::from_value` to `schema::TerminalOutputRequest`,
/// named by [`terminal_output_request`].
#[verifier::external_body]
pub(crate) fn parse_terminal_output(value: Value) -> (decoded: Result<
    schema::TerminalOutputRequest,
    String,
>)
    ensures
        text_error(decoded) == terminal_output_request(value),
{
    serde_json::from_value(value).map_err(|error| error.to_string())
}

/// The `WaitForTerminalExitRequest` that a JSON value says.
pub uninterp spec fn wait_for_terminal_exit_request(value: Value) -> Result<
    schema::WaitForTerminalExitRequest,
    Seq<char>,
>;

/// `serde_json::from_value` to `schema::WaitForTerminalExitRequest`,
/// named by [`wait_for_terminal_exit_request`].
#[verifier::external_body]
pub(crate) fn parse_wait_for_terminal_exit(value: Value) -> (decoded: Result<
    schema::WaitForTerminalExitRequest,
    String,
>)
    ensures
        text_error(decoded) == wait_for_terminal_exit_request(value),
{
    serde_json::from_value(value).map_err(|error| error.to_string())
}

/// The `KillTerminalRequest` that a JSON value says.
pub uninterp spec fn kill_terminal_request(value: Value) -> Result<
    schema::KillTerminalRequest,
    Seq<char>,
>;

/// `serde_json::from_value` to `schema::KillTerminalRequest`, named by [`kill_terminal_request`].
#[verifier::external_body]
pub(crate) fn parse_kill_terminal(value: Value) -> (decoded: Result<
    schema::KillTerminalRequest,
    String,
>)
    ensures
        text_error(decoded) == kill_terminal_request(value),
{
    serde_json::from_value(value).map_err(|error| error.to_string())
}

/// The `ReleaseTerminalRequest` that a JSON value says.
pub uninterp spec fn release_terminal_request(value: Value) -> Result<
    schema::ReleaseTerminalRequest,
    Seq<char>,
>;

/// `serde_json::from_value` to `schema::ReleaseTerminalRequest`,
/// named by [`release_terminal_request`].
#[verifier::external_body]
pub(crate) fn parse_release_terminal(value: Value) -> (decoded: Result<
    schema::ReleaseTerminalRequest,
    String,
>)
    ensures
        text_error(decoded) == release_terminal_request(value),
{
    serde_json::from_value(value).map_err(|error| error.to_string())
}

/// A `RequestPermissionResponse` as JSON.
pub uninterp spec fn request_permission_reply(value: schema::RequestPermissionResponse) -> Result<
    Value,
    Seq<char>,
>;

/// `serde_json::to_value` on `schema::RequestPermissionResponse`,
/// named by [`request_permission_reply`].
#[verifier::external_body]
pub(crate) fn encode_request_permission(value: schema::RequestPermissionResponse) -> (encoded: Result<
    Value,
    String,
>)
    ensures
        text_error(encoded) == request_permission_reply(value),
{
    serde_json::to_value(value).map_err(|error| error.to_string())
}

/// A `ReadTextFileResponse` as JSON.
pub uninterp spec fn read_text_file_reply(value: schema::ReadTextFileResponse) -> Result<
    Value,
    Seq<char>,
>;

/// `serde_json::to_value` on `schema::ReadTextFileResponse`, named by [`read_text_file_reply`].
#[verifier::external_body]
pub(crate) fn encode_read_text_file(value: schema::ReadTextFileResponse) -> (encoded: Result<
    Value,
    String,
>)
    ensures
        text_error(encoded) == read_text_file_reply(value),
{
    serde_json::to_value(value).map_err(|error| error.to_string())
}

/// A `WriteTextFileResponse` as JSON.
pub uninterp spec fn write_text_file_reply(value: schema::WriteTextFileResponse) -> Result<
    Value,
    Seq<char>,
>;

/// `serde_json::to_value` on `schema::WriteTextFileResponse`, named by [`write_text_file_reply`].
#[verifier::external_body]
pub(crate) fn encode_write_text_file(value: schema::WriteTextFileResponse) -> (encoded: Result<
    Value,
    String,
>)
    ensures
        text_error(encoded) == write_text_file_reply(value),
{
    serde_json::to_value(value).map_err(|error| error.to_string())
}

/// A `CreateTerminalResponse` as JSON.
pub uninterp spec fn create_terminal_reply(value: schema::CreateTerminalResponse) -> Result<
    Value,
    Seq<char>,
>;

/// `serde_json::to_value` on `schema::CreateTerminalResponse`, named by [`create_terminal_reply`].
#[verifier::external_body]
pub(crate) fn encode_create_terminal(value: schema::CreateTerminalResponse) -> (encoded: Result<
    Value,
    String,
>)
    ensures
        text_error(encoded) == create_terminal_reply(value),
{
    serde_json::to_value(value).map_err(|error| error.to_string())
}

/// A `TerminalOutputResponse` as JSON.
pub uninterp spec fn terminal_output_reply(value: schema::TerminalOutputResponse) -> Result<
    Value,
    Seq<char>,
>;

/// `serde_json::to_value` on `schema::TerminalOutputResponse`, named by [`terminal_output_reply`].
#[verifier::external_body]
pub(crate) fn encode_terminal_output(value: schema::TerminalOutputResponse) -> (encoded: Result<
    Value,
    String,
>)
    ensures
        text_error(encoded) == terminal_output_reply(value),
{
    serde_json::to_value(value).map_err(|error| error.to_string())
}

/// A `WaitForTerminalExitResponse` as JSON.
pub uninterp spec fn wait_for_terminal_exit_reply(value: schema::WaitForTerminalExitResponse) -> Result<
    Value,
    Seq<char>,
>;

/// `serde_json::to_value` on `schema::WaitForTerminalExitResponse`,
/// named by [`wait_for_terminal_exit_reply`].
#[verifier::external_body]
pub(crate) fn encode_wait_for_terminal_exit(value: schema::WaitForTerminalExitResponse) -> (encoded: Result<
    Value,
    String,
>)
    ensures
        text_error(encoded) == wait_for_terminal_exit_reply(value),
{
    serde_json::to_value(value).map_err(|error| error.to_string())
}

/// A `KillTerminalResponse` as JSON.
pub uninterp spec fn kill_terminal_reply(value: schema::KillTerminalResponse) -> Result<
    Value,
    Seq<char>,
>;

/// `serde_json::to_value` on `schema::KillTerminalResponse`, named by [`kill_terminal_reply`].
#[verifier::external_body]
pub(crate) fn encode_kill_terminal(value: schema::KillTerminalResponse) -> (encoded: Result<
    Value,
    String,
>)
    ensures
        text_error(encoded) == kill_terminal_reply(value),
{
    serde_json::to_value(value).map_err(|error| error.to_string())
}

/// A `ReleaseTerminalResponse` as JSON.
pub uninterp spec fn release_terminal_reply(value: schema::ReleaseTerminalResponse) -> Result<
    Value,
    Seq<char>,
>;

/// `serde_json::to_value` on `schema::ReleaseTerminalResponse`,
/// named by [`release_terminal_reply`].
#[verifier::external_body]
pub(crate) fn encode_release_terminal(value: schema::ReleaseTerminalResponse) -> (encoded: Result<
    Value,
    String,
>)
    ensures
        text_error(encoded) == release_terminal_reply(value),
{
    serde_json::to_value(value).map_err(|error| error.to_string())
}

/// The session that a notification is for.
pub uninterp spec fn notification_session_of(notification: schema::SessionNotification) -> Seq<char>;

/// Reads the session id of `schema::SessionNotification`, named by
/// [`notification_session_of`].
#[verifier::external_body]
pub(crate) fn notification_session(notification: &schema::SessionNotification) -> (session_id:
    String)
    ensures
        session_id@ == notification_session_of(*notification),
{
    notification.session_id.to_string()
}

/// The kind of the update in a notification.
pub uninterp spec fn notification_kind_of(notification: schema::SessionNotification) -> UpdateKind;

/// Reads which variant of `schema::SessionUpdate` a notification holds, named by
/// [`notification_kind_of`].
#[verifier::external_body]
pub(crate) fn notification_kind(notification: &schema::SessionNotification) -> (kind: UpdateKind)
    ensures
        kind == notification_kind_of(*notification),
{
    match &notification.update {
        schema::SessionUpdate::UserMessageChunk(_) => UpdateKind::UserMessageChunk,
        schema::SessionUpdate::AgentMessageChunk(_) => UpdateKind::AgentMessageChunk,
        schema::SessionUpdate::AgentThoughtChunk(_) => UpdateKind::AgentThoughtChunk,
        schema::SessionUpdate::ToolCall(_) => UpdateKind::ToolCall,
        schema::SessionUpdate::ToolCallUpdate(_) => UpdateKind::ToolCallUpdate,
        schema::SessionUpdate::Plan(_) => UpdateKind::Plan,
        schema::SessionUpdate::AvailableCommandsUpdate(_) => UpdateKind::AvailableCommandsUpdate,
        schema::SessionUpdate::CurrentModeUpdate(_) => UpdateKind::CurrentModeUpdate,
        schema::SessionUpdate::ConfigOptionUpdate(_) => UpdateKind::ConfigOptionUpdate,
        schema::SessionUpdate::SessionInfoUpdate(_) => UpdateKind::SessionInfoUpdate,
        schema::SessionUpdate::UsageUpdate(_) => UpdateKind::UsageUpdate,
        _ => UpdateKind::Other,
    }
}

/// The content of the chunk in a notification, if it holds a chunk.
pub uninterp spec fn notification_content_of(notification: schema::SessionNotification) -> Option<
    ChunkContentView,
>;

/// Reads the content of the chunk in `schema::SessionNotification`, named by
/// [`notification_content_of`]. There is one exactly when the update is a chunk.
#[verifier::external_body]
pub(crate) fn notification_content(notification: &schema::SessionNotification) -> (content: Option<
    ChunkContent,
>)
    ensures
        match content {
            Some(content) => notification_content_of(*notification) == Some(content@),
            None => notification_content_of(*notification) is None,
        },
        content is Some <==> notification_kind_of(*notification) is UserMessageChunk
            || notification_kind_of(*notification) is AgentMessageChunk
            || notification_kind_of(*notification) is AgentThoughtChunk,
{
    let chunk = match &notification.update {
        schema::SessionUpdate::UserMessageChunk(chunk) => chunk,
        schema::SessionUpdate::AgentMessageChunk(chunk) => chunk,
        schema::SessionUpdate::AgentThoughtChunk(chunk) => chunk,
        _ => return None,
    };
    Some(match &chunk.content {
        schema::ContentBlock::Text(text) => ChunkContent::Text { text: text.text.clone() },
        schema::ContentBlock::ResourceLink(l) => ChunkContent::ResourceLink { uri: l.uri.clone() },
        schema::ContentBlock::Image(_) => ChunkContent::Image,
        schema::ContentBlock::Audio(_) => ChunkContent::Audio,
        schema::ContentBlock::Resource(_) => ChunkContent::Resource,
        _ => ChunkContent::Other,
    })
}

/// The tool call in a notification, if it holds one.
pub uninterp spec fn notification_tool_call_of(notification: schema::SessionNotification) -> Option<
    ToolCallView,
>;

/// Reads the fields of the tool call in `schema::SessionNotification`, named by
/// [`notification_tool_call_of`]. There is one exactly when the update is a tool
/// call.
#[verifier::external_body]
pub(crate) fn notification_tool_call(notification: &schema::SessionNotification) -> (tool_call:
    Option<ToolCall>)
    ensures
        match tool_call {
            Some(tool_call) => notification_tool_call_of(*notification) == Some(tool_call@),
            None => notification_tool_call_of(*notification) is None,
        },
        tool_call is Some <==> notification_kind_of(*notification) is ToolCall,
{
    match notification.update.clone() {
        schema::SessionUpdate::ToolCall(call) => Some(ToolCall {
            tool_call_id: call.tool_call_id.to_string(),
            title: call.title,
            kind: call.kind,
            status: call.status,
            content: call.content,
            locations: call.locations,
            raw_input: call.raw_input,
            raw_output: call.raw_output,
            meta: call.meta,
        }),
        _ => None,
    }
}

/// The tool call update in a notification, if it holds one.
pub uninterp spec fn notification_tool_call_update_of(
    notification: schema::SessionNotification,
) -> Option<ToolCallUpdateView>;

/// Reads the fields of the tool call update in `schema::SessionNotification`,
/// named by [`notification_tool_call_update_of`]. There is one exactly when the
/// update is a tool call update.
#[verifier::external_body]
pub(crate) fn notification_tool_call_update(notification: &schema::SessionNotification) -> (update:
    Option<ToolCallUpdate>)
    ensures
        match update {
            Some(update) => notification_tool_call_update_of(*notification) == Some(update@),
            None => notification_tool_call_update_of(*notification) is None,
        },
        update is Some <==> notification_kind_of(*notification) is ToolCallUpdate,
{
    let schema::SessionUpdate::ToolCallUpdate(update) = notification.update.clone() else {
        return None;
    };
    let fields = ToolCallUpdateFields {
        kind: update.fields.kind,
        status: update.fields.status,
        title: update.fields.title,
        content: update.fields.content,
        locations: update.fields.locations,
        raw_input: update.fields.raw_input,
        raw_output: update.fields.raw_output,
    };
    let tool_call_id = update.tool_call_id.to_string();
    Some(ToolCallUpdate { tool_call_id, fields, meta: update.meta })
}

/// The plan in a notification, if it holds one.
pub uninterp spec fn notification_plan_of(notification: schema::SessionNotification) -> Option<
    schema::Plan,
>;

/// Reads the plan in `schema::SessionNotification`, named by
/// [`notification_plan_of`]. There is one exactly when the update is a plan.
#[verifier::external_body]
pub(crate) fn notification_plan(notification: &schema::SessionNotification) -> (plan: Option<
    schema::Plan,
>)
    ensures
        plan == notification_plan_of(*notification),
        plan is Some <==> notification_kind_of(*notification) is Plan,
{
    match &notification.update {
        schema::SessionUpdate::Plan(plan) => Some(plan.clone()),
        _ => None,
    }
}

/// The reason in the response to a prompt.
pub uninterp spec fn response_stop_reason_of(response: schema::PromptResponse) -> StopReason;

/// Reads which variant of `schema::StopReason` a `schema::PromptResponse` holds,
/// named by [`response_stop_reason_of`].
#[verifier::external_body]
pub(crate) fn response_stop_reason(response: &schema::PromptResponse) -> (reason: StopReason)
    ensures
        reason == response_stop_reason_of(*response),
{
    match response.stop_reason {
        schema::StopReason::EndTurn => StopReason::EndTurn,
        schema::StopReason::MaxTokens => StopReason::MaxTokens,
        schema::StopReason::MaxTurnRequests => StopReason::MaxTurnRequests,
        schema::StopReason::Refusal => StopReason::Refusal,
        schema::StopReason::Cancelled => StopReason::Cancelled,
        _ => StopReason::Other,
    }
}

/// What is said of a result is said of its value, or of the text of its error.
pub proof fn law_text_errors_are_faithful<T>(value: T, text: String)
    ensures
        text_error::<T>(Ok(value)) == Ok::<T, Seq<char>>(value),
        text_error::<T>(Err(text)) == Err::<T, Seq<char>>(text@),
{
}

} // verus!
