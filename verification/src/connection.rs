//! Requests and notifications from the client to the agent.
//!
//! A typed request becomes an [`RpcCall`]; what the JSON-RPC service brings back
//! for it becomes a typed response. Sending is left to the embedding application.

use agent_client_protocol_schema::v1 as schema;
use serde_json::Value;
use vstd::prelude::*;

use crate::session::{
    ChunkContent, ContentChunk, SessionEvent, SessionUpdate, StopReason, UpdateKind,
};
use crate::text::concat2;
use crate::wire::{
    agent_methods, authenticate_params, authenticate_result, cancel_params, client_methods,
    decode_authenticate, decode_initialize, decode_load_session, decode_new_session, decode_prompt,
    decode_session_update, encode_authenticate, encode_cancel, encode_initialize,
    encode_load_session, encode_new_session, encode_prompt, initialize_params, initialize_result,
    load_session_params, load_session_result, new_session_params, new_session_result,
    notification_content, notification_content_of, notification_kind, notification_kind_of,
    notification_plan, notification_plan_of, notification_session, notification_session_of,
    notification_tool_call, notification_tool_call_of, notification_tool_call_update,
    notification_tool_call_update_of, prompt_params, prompt_result, response_stop_reason,
    response_stop_reason_of, session_update_of, text_error,
};

verus! {

/// Capacity of the channels that session updates go through. Updates stream
/// fast during a prompt turn; the consumer drains them.
pub const SESSION_UPDATE_CHANNEL_CAPACITY: usize = 1024;

/// How many seconds the agent process gets to exit on shutdown before it is
/// asked to terminate.
pub const SHUTDOWN_TIMEOUT_SECS: u64 = 3;

/// A method of the agent with its parameters.
pub struct RpcCall {
    pub method: String,
    pub params: Value,
}

/// What an [`RpcCall`] says.
pub struct RpcCallView {
    pub method: Seq<char>,
    pub params: Value,
}

impl View for RpcCall {
    type V = RpcCallView;

    open spec fn view(&self) -> RpcCallView {
        RpcCallView { method: self.method@, params: self.params }
    }
}

/// Why a request to the agent has no response.
#[derive(Debug, Clone, PartialEq, Eq)]
pub enum RequestError {
    /// The parameters cannot be encoded.
    Encode { cause: String },
    /// The request failed, or the agent answered with an error.
    Failed { method: String, cause: String },
    /// The response is not one that the method has.
    Response { method: String, cause: String },
}

/// What a [`RequestError`] says.
pub enum RequestErrorView {
    Encode { cause: Seq<char> },
    Failed { method: Seq<char>, cause: Seq<char> },
    Response { method: Seq<char>, cause: Seq<char> },
}

impl View for RequestError {
    type V = RequestErrorView;

    open spec fn view(&self) -> RequestErrorView {
        match self {
            RequestError::Encode { cause } => RequestErrorView::Encode { cause: cause@ },
            RequestError::Failed { method, cause } => RequestErrorView::Failed {
                method: method@,
                cause: cause@,
            },
            RequestError::Response { method, cause } => RequestErrorView::Response {
                method: method@,
                cause: cause@,
            },
        }
    }
}

/// The description of an error: what was being done, then what went wrong.
pub open spec fn description(error: RequestErrorView) -> Seq<char> {
    match error {
        RequestErrorView::Encode { cause } => cause,
        RequestErrorView::Failed { method, cause } => "ACP request "@ + method + " failed: "@ + cause,
        RequestErrorView::Response { method, cause } => "Failed to parse ACP response for "@ + method
            + ": "@ + cause,
    }
}

impl RequestError {
    /// Describes the error: what was being done, then what went wrong.
    pub fn describe(&self) -> (text: String)
        ensures
            text@ == description(self@),
    {
        match self {
            RequestError::Encode { cause } => cause.clone(),
            RequestError::Failed { method, cause } => {
                let start = concat2("ACP request ", method.as_str());
                concat2(concat2(start.as_str(), " failed: ").as_str(), cause.as_str())
            },
            RequestError::Response { method, cause } => {
                let start = concat2("Failed to parse ACP response for ", method.as_str());
                concat2(concat2(start.as_str(), ": ").as_str(), cause.as_str())
            },
        }
    }
}

/// A call with its error taken by what it says.
pub open spec fn call_view(call: Result<RpcCall, RequestError>) -> Result<
    RpcCallView,
    RequestErrorView,
> {
    match call {
        Ok(call) => Ok(call@),
        Err(error) => Err(error@),
    }
}

/// A response with its error taken by what it says.
pub open spec fn response_view<T>(response: Result<T, RequestError>) -> Result<
    T,
    RequestErrorView,
> {
    match response {
        Ok(response) => Ok(response),
        Err(error) => Err(error@),
    }
}

/// The call of `method` with encoded parameters.
pub open spec fn call_of(method: Seq<char>, params: Result<Value, Seq<char>>) -> Result<
    RpcCallView,
    RequestErrorView,
> {
    match params {
        Ok(params) => Ok(RpcCallView { method, params }),
        Err(cause) => Err(RequestErrorView::Encode { cause }),
    }
}

/// The response to `method`, from what came back for the call.
pub open spec fn response_of<T>(
    method: Seq<char>,
    outcome: Result<Value, String>,
    decoded: spec_fn(Value) -> Result<T, Seq<char>>,
) -> Result<T, RequestErrorView> {
    match outcome {
        Ok(value) => match decoded(value) {
            Ok(response) => Ok(response),
            Err(cause) => Err(RequestErrorView::Response { method, cause }),
        },
        Err(cause) => Err(RequestErrorView::Failed { method, cause: cause@ }),
    }
}

/// The call of `method`, from what came back from encoding its parameters.
pub fn rpc_call(method: &str, params: Result<Value, String>) -> (call: Result<
    RpcCall,
    RequestError,
>)
    ensures
        call_view(call) == call_of(method@, text_error(params)),
{
    match params {
        Ok(params) => Ok(RpcCall { method: method.to_owned(), params }),
        Err(cause) => Err(RequestError::Encode { cause }),
    }
}

/// The failure of a call that brought no value back.
fn failed_request(method: &str, cause: String) -> (error: RequestError)
    ensures
        error@ == (RequestErrorView::Failed { method: method@, cause: cause@ }),
{
    RequestError::Failed { method: method.to_owned(), cause }
}

/// The response to `method`, from what came back from decoding it.
pub fn decoded_response<T>(method: &str, decoded: Result<T, String>) -> (response: Result<
    T,
    RequestError,
>)
    ensures
        response_view(response) == (match decoded {
            Ok(value) => Ok(value),
            Err(cause) => Err(RequestErrorView::Response { method: method@, cause: cause@ }),
        }),
{
    match decoded {
        Ok(value) => Ok(value),
        Err(cause) => Err(RequestError::Response { method: method.to_owned(), cause }),
    }
}

/// Performs the `initialize` handshake: the call to send.
pub fn initialize_call(request: schema::InitializeRequest) -> (call: Result<RpcCall, RequestError>)
    ensures
        call_view(call) == call_of("initialize"@, initialize_params(request)),
{
    rpc_call(agent_methods().initialize, encode_initialize(request))
}

/// The response to [`initialize_call`], from what came back for the call.
pub fn initialize_response(outcome: Result<Value, String>) -> (response: Result<
    schema::InitializeResponse,
    RequestError,
>)
    ensures
        response_view(response) == response_of(
            "initialize"@,
            outcome,
            |value: Value| initialize_result(value),
        ),
{
    let method = agent_methods().initialize;
    match outcome {
        Ok(value) => decoded_response(method, decode_initialize(value)),
        Err(cause) => Err(failed_request(method, cause)),
    }
}

/// Authenticates with one of the methods that the agent advertised: the call to send.
pub fn authenticate_call(request: schema::AuthenticateRequest) -> (call: Result<RpcCall, RequestError>)
    ensures
        call_view(call) == call_of("authenticate"@, authenticate_params(request)),
{
    rpc_call(agent_methods().authenticate, encode_authenticate(request))
}

/// The response to [`authenticate_call`], from what came back for the call.
pub fn authenticate_response(outcome: Result<Value, String>) -> (response: Result<
    schema::AuthenticateResponse,
    RequestError,
>)
    ensures
        response_view(response) == response_of(
            "authenticate"@,
            outcome,
            |value: Value| authenticate_result(value),
        ),
{
    let method = agent_methods().authenticate;
    match outcome {
        Ok(value) => decoded_response(method, decode_authenticate(value)),
        Err(cause) => Err(failed_request(method, cause)),
    }
}

/// Creates a new session: the call to send.
pub fn new_session_call(request: schema::NewSessionRequest) -> (call: Result<RpcCall, RequestError>)
    ensures
        call_view(call) == call_of("session/new"@, new_session_params(request)),
{
    rpc_call(agent_methods().session_new, encode_new_session(request))
}

/// The response to [`new_session_call`], from what came back for the call.
pub fn new_session_response(outcome: Result<Value, String>) -> (response: Result<
    schema::NewSessionResponse,
    RequestError,
>)
    ensures
        response_view(response) == response_of(
            "session/new"@,
            outcome,
            |value: Value| new_session_result(value),
        ),
{
    let method = agent_methods().session_new;
    match outcome {
        Ok(value) => decoded_response(method, decode_new_session(value)),
        Err(cause) => Err(failed_request(method, cause)),
    }
}

/// Loads an existing session (only if the agent advertises `loadSession`): the call to send.
pub fn load_session_call(request: schema::LoadSessionRequest) -> (call: Result<RpcCall, RequestError>)
    ensures
        call_view(call) == call_of("session/load"@, load_session_params(request)),
{
    rpc_call(agent_methods().session_load, encode_load_session(request))
}

/// The response to [`load_session_call`], from what came back for the call.
pub fn load_session_response(outcome: Result<Value, String>) -> (response: Result<
    schema::LoadSessionResponse,
    RequestError,
>)
    ensures
        response_view(response) == response_of(
            "session/load"@,
            outcome,
            |value: Value| load_session_result(value),
        ),
{
    let method = agent_methods().session_load;
    match outcome {
        Ok(value) => decoded_response(method, decode_load_session(value)),
        Err(cause) => Err(failed_request(method, cause)),
    }
}

/// Sends a prompt turn: the call to send.
pub fn prompt_call(request: schema::PromptRequest) -> (call: Result<RpcCall, RequestError>)
    ensures
        call_view(call) == call_of("session/prompt"@, prompt_params(request)),
{
    rpc_call(agent_methods().session_prompt, encode_prompt(request))
}

/// The response to [`prompt_call`], from what came back for the call.
pub fn prompt_response(outcome: Result<Value, String>) -> (response: Result<
    schema::PromptResponse,
    RequestError,
>)
    ensures
        response_view(response) == response_of(
            "session/prompt"@,
            outcome,
            |value: Value| prompt_result(value),
        ),
{
    let method = agent_methods().session_prompt;
    match outcome {
        Ok(value) => decoded_response(method, decode_prompt(value)),
        Err(cause) => Err(failed_request(method, cause)),
    }
}

/// Cancels the prompt turn of a session: the notification to send. No response
/// comes for it.
pub fn cancel_call(session_id: String) -> (call: Result<RpcCall, RequestError>)
    ensures
        call_view(call) == call_of("session/cancel"@, cancel_params(session_id@)),
{
    rpc_call(agent_methods().session_cancel, encode_cancel(session_id))
}

/// The method whose notifications are session updates.
pub fn session_update_method() -> (method: &'static str)
    ensures
        method@ == "session/update"@,
{
    client_methods().session_update
}

/// The session update in the parameters of a notification, or why they hold
/// none. Parameters that hold none are dropped.
pub fn session_update(params: Value) -> (notification: Result<schema::SessionNotification, String>)
    ensures
        text_error(notification) == session_update_of(params),
{
    decode_session_update(params)
}

/// Whether `event` says what a session update says.
pub open spec fn tells(event: SessionEvent, notification: schema::SessionNotification) -> bool {
    &&& event.session_id@ == notification_session_of(notification)
    &&& match event.update {
        SessionUpdate::UserMessageChunk(chunk) => {
            &&& notification_kind_of(notification) is UserMessageChunk
            &&& notification_content_of(notification) == Some(chunk.content@)
        },
        SessionUpdate::AgentMessageChunk(chunk) => {
            &&& notification_kind_of(notification) is AgentMessageChunk
            &&& notification_content_of(notification) == Some(chunk.content@)
        },
        SessionUpdate::AgentThoughtChunk(chunk) => {
            &&& notification_kind_of(notification) is AgentThoughtChunk
            &&& notification_content_of(notification) == Some(chunk.content@)
        },
        SessionUpdate::ToolCall(tool_call) => {
            &&& notification_kind_of(notification) is ToolCall
            &&& notification_tool_call_of(notification) == Some(tool_call@)
        },
        SessionUpdate::ToolCallUpdate(update) => {
            &&& notification_kind_of(notification) is ToolCallUpdate
            &&& notification_tool_call_update_of(notification) == Some(update@)
        },
        SessionUpdate::Plan(plan) => {
            &&& notification_kind_of(notification) is Plan
            &&& notification_plan_of(notification) == Some(plan)
        },
        SessionUpdate::AvailableCommandsUpdate => {
            notification_kind_of(notification) is AvailableCommandsUpdate
        },
        SessionUpdate::CurrentModeUpdate => notification_kind_of(notification) is CurrentModeUpdate,
        SessionUpdate::ConfigOptionUpdate => notification_kind_of(notification) is ConfigOptionUpdate,
        SessionUpdate::SessionInfoUpdate => notification_kind_of(notification) is SessionInfoUpdate,
        SessionUpdate::UsageUpdate => notification_kind_of(notification) is UsageUpdate,
        SessionUpdate::Other => notification_kind_of(notification) is Other,
    }
}

/// The update in a notification that holds a chunk.
fn chunk_update(kind: UpdateKind, content: ChunkContent) -> (update: SessionUpdate)
    requires
        kind is UserMessageChunk || kind is AgentMessageChunk || kind is AgentThoughtChunk,
    ensures
        match update {
            SessionUpdate::UserMessageChunk(chunk) => kind is UserMessageChunk && chunk.content
                == content,
            SessionUpdate::AgentMessageChunk(chunk) => kind is AgentMessageChunk && chunk.content
                == content,
            SessionUpdate::AgentThoughtChunk(chunk) => kind is AgentThoughtChunk && chunk.content
                == content,
            _ => false,
        },
{
    let chunk = ContentChunk { content };
    match kind {
        UpdateKind::UserMessageChunk => SessionUpdate::UserMessageChunk(chunk),
        UpdateKind::AgentMessageChunk => SessionUpdate::AgentMessageChunk(chunk),
        _ => SessionUpdate::AgentThoughtChunk(chunk),
    }
}

/// What a session update says.
pub fn session_event(notification: &schema::SessionNotification) -> (event: SessionEvent)
    ensures
        tells(event, *notification),
{
    let session_id = notification_session(notification);
    let kind = notification_kind(notification);
    if let Some(content) = notification_content(notification) {
        return SessionEvent { session_id, update: chunk_update(kind, content) };
    }
    if let Some(tool_call) = notification_tool_call(notification) {
        return SessionEvent { session_id, update: SessionUpdate::ToolCall(tool_call) };
    }
    if let Some(update) = notification_tool_call_update(notification) {
        return SessionEvent { session_id, update: SessionUpdate::ToolCallUpdate(update) };
    }
    if let Some(plan) = notification_plan(notification) {
        return SessionEvent { session_id, update: SessionUpdate::Plan(plan) };
    }
    let update = match kind {
        UpdateKind::AvailableCommandsUpdate => SessionUpdate::AvailableCommandsUpdate,
        UpdateKind::CurrentModeUpdate => SessionUpdate::CurrentModeUpdate,
        UpdateKind::ConfigOptionUpdate => SessionUpdate::ConfigOptionUpdate,
        UpdateKind::SessionInfoUpdate => SessionUpdate::SessionInfoUpdate,
        UpdateKind::UsageUpdate => SessionUpdate::UsageUpdate,
        _ => SessionUpdate::Other,
    };
    SessionEvent { session_id, update }
}

/// Why a prompt turn ended, or the failure of the prompt.
pub fn turn_outcome(response: Result<schema::PromptResponse, RequestError>) -> (outcome: Result<
    StopReason,
    RequestError,
>)
    ensures
        match response {
            Ok(response) => outcome == Ok::<StopReason, RequestError>(
                response_stop_reason_of(response),
            ),
            Err(error) => outcome == Err::<StopReason, RequestError>(error),
        },
{
    match response {
        Ok(response) => Ok(response_stop_reason(&response)),
        Err(error) => Err(error),
    }
}

/// A failed request is described by its method and its cause, and one that could
/// not be encoded by its cause alone.
pub proof fn law_errors_are_described(method: Seq<char>, cause: Seq<char>)
    ensures
        description(RequestErrorView::Encode { cause }) == cause,
        description(RequestErrorView::Failed { method, cause }) == "ACP request "@ + (method
            + (" failed: "@ + cause)),
        description(RequestErrorView::Response { method, cause })
            == "Failed to parse ACP response for "@ + (method + (": "@ + cause)),
{
    assert("ACP request "@ + method + " failed: "@ + cause =~= "ACP request "@ + (method + (
    " failed: "@ + cause)));
    assert("Failed to parse ACP response for "@ + method + ": "@ + cause
        =~= "Failed to parse ACP response for "@ + (method + (": "@ + cause)));
}

/// The view of an error tells its kind, its method and its cause, and that of a
/// call its method and its parameters.
pub proof fn law_request_views_are_faithful(method: String, cause: String, params: Value)
    ensures
        (RequestError::Encode { cause })@ == (RequestErrorView::Encode { cause: cause@ }),
        (RequestError::Failed { method, cause })@ == (RequestErrorView::Failed {
            method: method@,
            cause: cause@,
        }),
        (RequestError::Response { method, cause })@ == (RequestErrorView::Response {
            method: method@,
            cause: cause@,
        }),
        (RpcCall { method, params })@ == (RpcCallView { method: method@, params }),
{
}

/// What is said of the result of a call or a response is said of the value or of
/// the error.
pub proof fn law_result_views_are_faithful<T>(call: RpcCall, response: T, error: RequestError)
    ensures
        call_view(Ok(call)) == Ok::<RpcCallView, RequestErrorView>(call@),
        call_view(Err(error)) == Err::<RpcCallView, RequestErrorView>(error@),
        response_view::<T>(Ok(response)) == Ok::<T, RequestErrorView>(response),
        response_view::<T>(Err(error)) == Err::<T, RequestErrorView>(error@),
{
}

/// A call has its method and its encoded parameters; parameters that cannot be
/// encoded make no call, and the failure keeps its cause.
pub proof fn law_calls_carry_their_parameters(method: Seq<char>, params: Value, cause: Seq<char>)
    ensures
        call_of(method, Ok(params)) == Ok::<RpcCallView, RequestErrorView>(
            RpcCallView { method, params },
        ),
        call_of(method, Err(cause)) == Err::<RpcCallView, RequestErrorView>(
            RequestErrorView::Encode { cause },
        ),
{
}

/// A response is what the value that came back decodes to. A value that does not
/// decode and a call without a value are failures that name the method and keep
/// the cause.
pub proof fn law_responses_are_decoded<T>(
    method: Seq<char>,
    value: Value,
    cause: String,
    decoded: spec_fn(Value) -> Result<T, Seq<char>>,
)
    ensures
        decoded(value) is Ok ==> response_of(method, Ok(value), decoded) == Ok::<
            T,
            RequestErrorView,
        >(decoded(value)->Ok_0),
        decoded(value) is Err ==> response_of(method, Ok(value), decoded) == Err::<
            T,
            RequestErrorView,
        >(RequestErrorView::Response { method, cause: decoded(value)->Err_0 }),
        response_of(method, Err(cause), decoded) == Err::<T, RequestErrorView>(
            RequestErrorView::Failed { method, cause: cause@ },
        ),
{
}

/// An event that tells a notification belongs to its session, is of its kind, and
/// holds all that it holds.
pub proof fn law_events_tell_their_notification(
    event: SessionEvent,
    notification: schema::SessionNotification,
)
    requires
        tells(event, notification),
    ensures
        event.session_id@ == notification_session_of(notification),
        event.update is UserMessageChunk <==> notification_kind_of(notification) is UserMessageChunk,
        event.update is AgentMessageChunk <==> notification_kind_of(
            notification,
        ) is AgentMessageChunk,
        event.update is AgentThoughtChunk <==> notification_kind_of(
            notification,
        ) is AgentThoughtChunk,
        event.update is ToolCall <==> notification_kind_of(notification) is ToolCall,
        event.update is ToolCallUpdate <==> notification_kind_of(notification) is ToolCallUpdate,
        event.update is Plan <==> notification_kind_of(notification) is Plan,
        event.update is AvailableCommandsUpdate <==> notification_kind_of(
            notification,
        ) is AvailableCommandsUpdate,
        event.update is CurrentModeUpdate <==> notification_kind_of(
            notification,
        ) is CurrentModeUpdate,
        event.update is ConfigOptionUpdate <==> notification_kind_of(
            notification,
        ) is ConfigOptionUpdate,
        event.update is SessionInfoUpdate <==> notification_kind_of(
            notification,
        ) is SessionInfoUpdate,
        event.update is UsageUpdate <==> notification_kind_of(notification) is UsageUpdate,
        event.update is Other <==> notification_kind_of(notification) is Other,
        event.update matches SessionUpdate::UserMessageChunk(chunk) ==> notification_content_of(
            notification,
        ) == Some(chunk.content@),
        event.update matches SessionUpdate::AgentMessageChunk(chunk) ==> notification_content_of(
            notification,
        ) == Some(chunk.content@),
        event.update matches SessionUpdate::AgentThoughtChunk(chunk) ==> notification_content_of(
            notification,
        ) == Some(chunk.content@),
        event.update matches SessionUpdate::ToolCall(tool_call) ==> notification_tool_call_of(
            notification,
        ) == Some(tool_call@),
        event.update matches SessionUpdate::ToolCallUpdate(update)
            ==> notification_tool_call_update_of(notification) == Some(update@),
        event.update matches SessionUpdate::Plan(plan) ==> notification_plan_of(notification)
            == Some(plan),
{
}

/// Channels hold 1024 session updates, and an agent gets three seconds to exit.
pub proof fn law_connection_limits()
    ensures
        SESSION_UPDATE_CHANNEL_CAPACITY == 1024,
        SHUTDOWN_TIMEOUT_SECS == 3,
{
}

} // verus!
