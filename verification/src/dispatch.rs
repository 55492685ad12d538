//! Requests from the agent to the client.
//!
//! A request is parsed by its method, answered by an [`AcpClientDelegate`], and
//! the answer is encoded; or the agent is told what went wrong.

use agent_client_protocol_schema::v1 as schema;
use serde_json::Value;
use vstd::prelude::*;

use crate::text::{concat2, text_eq};
use crate::wire::{
    client_methods, create_terminal_reply, create_terminal_request, encode_create_terminal,
    encode_kill_terminal, encode_read_text_file, encode_release_terminal,
    encode_request_permission, encode_terminal_output, encode_wait_for_terminal_exit,
    encode_write_text_file, kill_terminal_reply, kill_terminal_request, parse_create_terminal,
    parse_kill_terminal, parse_read_text_file, parse_release_terminal, parse_request_permission,
    parse_terminal_output, parse_wait_for_terminal_exit, parse_write_text_file,
    read_text_file_reply, read_text_file_request, release_terminal_reply, release_terminal_request,
    request_permission_reply, request_permission_request, terminal_output_reply,
    terminal_output_request, text_error, wait_for_terminal_exit_reply,
    wait_for_terminal_exit_request, write_text_file_reply, write_text_file_request,
};

verus! {

/// JSON-RPC error code returned to the agent for failed requests (standard
/// "Internal error").
pub const JSON_RPC_INTERNAL_ERROR: i64 = -32603;

/// JSON-RPC error code for methods this client does not implement.
pub const JSON_RPC_METHOD_NOT_FOUND: i64 = -32601;

/// Handles requests of the agent. Implemented by the embedding application;
/// every method corresponds to a capability of the client. A failure is the text
/// that the agent is told.
pub trait AcpClientDelegate {
    fn request_permission(&self, request: schema::RequestPermissionRequest) -> Result<
        schema::RequestPermissionResponse,
        String,
    >;

    fn read_text_file(&self, request: schema::ReadTextFileRequest) -> Result<
        schema::ReadTextFileResponse,
        String,
    >;

    fn write_text_file(&self, request: schema::WriteTextFileRequest) -> Result<
        schema::WriteTextFileResponse,
        String,
    >;

    fn create_terminal(&self, request: schema::CreateTerminalRequest) -> Result<
        schema::CreateTerminalResponse,
        String,
    >;

    fn terminal_output(&self, request: schema::TerminalOutputRequest) -> Result<
        schema::TerminalOutputResponse,
        String,
    >;

    fn wait_for_terminal_exit(&self, request: schema::WaitForTerminalExitRequest) -> Result<
        schema::WaitForTerminalExitResponse,
        String,
    >;

    fn kill_terminal(&self, request: schema::KillTerminalRequest) -> Result<
        schema::KillTerminalResponse,
        String,
    >;

    fn release_terminal(&self, request: schema::ReleaseTerminalRequest) -> Result<
        schema::ReleaseTerminalResponse,
        String,
    >;
}

/// A request of the agent, parsed.
pub enum AgentRequest {
    RequestPermission(schema::RequestPermissionRequest),
    ReadTextFile(schema::ReadTextFileRequest),
    WriteTextFile(schema::WriteTextFileRequest),
    CreateTerminal(schema::CreateTerminalRequest),
    TerminalOutput(schema::TerminalOutputRequest),
    WaitForTerminalExit(schema::WaitForTerminalExitRequest),
    KillTerminal(schema::KillTerminalRequest),
    ReleaseTerminal(schema::ReleaseTerminalRequest),
}

/// The answer to a request of the agent.
pub enum ClientReply {
    RequestPermission(schema::RequestPermissionResponse),
    ReadTextFile(schema::ReadTextFileResponse),
    WriteTextFile(schema::WriteTextFileResponse),
    CreateTerminal(schema::CreateTerminalResponse),
    TerminalOutput(schema::TerminalOutputResponse),
    WaitForTerminalExit(schema::WaitForTerminalExitResponse),
    KillTerminal(schema::KillTerminalResponse),
    ReleaseTerminal(schema::ReleaseTerminalResponse),
}

/// Why a request of the agent has no answer.
#[derive(Debug, Clone, PartialEq, Eq)]
pub enum DispatchError {
    UnknownMethod,
    Failed(String),
}

/// What a [`DispatchError`] says.
pub enum DispatchErrorView {
    UnknownMethod,
    Failed(Seq<char>),
}

impl View for DispatchError {
    type V = DispatchErrorView;

    open spec fn view(&self) -> DispatchErrorView {
        match self {
            DispatchError::UnknownMethod => DispatchErrorView::UnknownMethod,
            DispatchError::Failed(message) => DispatchErrorView::Failed(message@),
        }
    }
}

/// A result with its error taken by what it says.
pub open spec fn result_view<T>(result: Result<T, DispatchError>) -> Result<T, DispatchErrorView> {
    match result {
        Ok(value) => Ok(value),
        Err(error) => Err(error@),
    }
}

/// The failure of a request with parameters that do not fit its method.
pub open spec fn invalid_params(method: Seq<char>, cause: Seq<char>) -> DispatchErrorView {
    DispatchErrorView::Failed("Invalid params for "@ + method + (": "@ + cause))
}

/// The failure to encode an answer.
pub open spec fn unencodable(cause: Seq<char>) -> DispatchErrorView {
    DispatchErrorView::Failed("Failed to encode response: "@ + cause)
}

/// The methods that the client implements.
pub open spec fn is_client_method(method: Seq<char>) -> bool {
    ||| method == "session/request_permission"@
    ||| method == "fs/read_text_file"@
    ||| method == "fs/write_text_file"@
    ||| method == "terminal/create"@
    ||| method == "terminal/output"@
    ||| method == "terminal/wait_for_exit"@
    ||| method == "terminal/kill"@
    ||| method == "terminal/release"@
}

/// The request that `method` with `params` stands for.
pub open spec fn parsed_request(method: Seq<char>, params: Value) -> Result<
    AgentRequest,
    DispatchErrorView,
> {
    if method == "session/request_permission"@ {
        match request_permission_request(params) {
            Ok(request) => Ok(AgentRequest::RequestPermission(request)),
            Err(cause) => Err(invalid_params(method, cause)),
        }
    } else if method == "fs/read_text_file"@ {
        match read_text_file_request(params) {
            Ok(request) => Ok(AgentRequest::ReadTextFile(request)),
            Err(cause) => Err(invalid_params(method, cause)),
        }
    } else if method == "fs/write_text_file"@ {
        match write_text_file_request(params) {
            Ok(request) => Ok(AgentRequest::WriteTextFile(request)),
            Err(cause) => Err(invalid_params(method, cause)),
        }
    } else if method == "terminal/create"@ {
        match create_terminal_request(params) {
            Ok(request) => Ok(AgentRequest::CreateTerminal(request)),
            Err(cause) => Err(invalid_params(method, cause)),
        }
    } else if method == "terminal/output"@ {
        match terminal_output_request(params) {
            Ok(request) => Ok(AgentRequest::TerminalOutput(request)),
            Err(cause) => Err(invalid_params(method, cause)),
        }
    } else if method == "terminal/wait_for_exit"@ {
        match wait_for_terminal_exit_request(params) {
            Ok(request) => Ok(AgentRequest::WaitForTerminalExit(request)),
            Err(cause) => Err(invalid_params(method, cause)),
        }
    } else if method == "terminal/kill"@ {
        match kill_terminal_request(params) {
            Ok(request) => Ok(AgentRequest::KillTerminal(request)),
            Err(cause) => Err(invalid_params(method, cause)),
        }
    } else if method == "terminal/release"@ {
        match release_terminal_request(params) {
            Ok(request) => Ok(AgentRequest::ReleaseTerminal(request)),
            Err(cause) => Err(invalid_params(method, cause)),
        }
    } else {
        Err(DispatchErrorView::UnknownMethod)
    }
}

/// The failure for parameters that do not fit `method`.
pub fn invalid_params_error(method: &str, cause: &str) -> (failure: DispatchError)
    ensures
        failure@ == invalid_params(method@, cause@),
{
    let start = concat2("Invalid params for ", method);
    let end = concat2(": ", cause);
    DispatchError::Failed(concat2(start.as_str(), end.as_str()))
}

/// Parses a request of the agent.
pub fn parse_agent_request(method: &str, params: Value) -> (request: Result<
    AgentRequest,
    DispatchError,
>)
    ensures
        result_view(request) == parsed_request(method@, params),
{
    let names = client_methods();
    if text_eq(method, names.session_request_permission) {
        match parse_request_permission(params) {
            Ok(request) => Ok(AgentRequest::RequestPermission(request)),
            Err(cause) => Err(invalid_params_error(method, cause.as_str())),
        }
    } else if text_eq(method, names.fs_read_text_file) {
        match parse_read_text_file(params) {
            Ok(request) => Ok(AgentRequest::ReadTextFile(request)),
            Err(cause) => Err(invalid_params_error(method, cause.as_str())),
        }
    } else if text_eq(method, names.fs_write_text_file) {
        match parse_write_text_file(params) {
            Ok(request) => Ok(AgentRequest::WriteTextFile(request)),
            Err(cause) => Err(invalid_params_error(method, cause.as_str())),
        }
    } else if text_eq(method, names.terminal_create) {
        match parse_create_terminal(params) {
            Ok(request) => Ok(AgentRequest::CreateTerminal(request)),
            Err(cause) => Err(invalid_params_error(method, cause.as_str())),
        }
    } else if text_eq(method, names.terminal_output) {
        match parse_terminal_output(params) {
            Ok(request) => Ok(AgentRequest::TerminalOutput(request)),
            Err(cause) => Err(invalid_params_error(method, cause.as_str())),
        }
    } else if text_eq(method, names.terminal_wait_for_exit) {
        match parse_wait_for_terminal_exit(params) {
            Ok(request) => Ok(AgentRequest::WaitForTerminalExit(request)),
            Err(cause) => Err(invalid_params_error(method, cause.as_str())),
        }
    } else if text_eq(method, names.terminal_kill) {
        match parse_kill_terminal(params) {
            Ok(request) => Ok(AgentRequest::KillTerminal(request)),
            Err(cause) => Err(invalid_params_error(method, cause.as_str())),
        }
    } else if text_eq(method, names.terminal_release) {
        match parse_release_terminal(params) {
            Ok(request) => Ok(AgentRequest::ReleaseTerminal(request)),
            Err(cause) => Err(invalid_params_error(method, cause.as_str())),
        }
    } else {
        Err(DispatchError::UnknownMethod)
    }
}

/// An encoded value, or the failure to encode it.
pub open spec fn encoded_or_failed(encoded: Result<Value, Seq<char>>) -> Result<
    Value,
    DispatchErrorView,
> {
    match encoded {
        Ok(value) => Ok(value),
        Err(cause) => Err(unencodable(cause)),
    }
}

/// The encoded value, from what came back from encoding.
pub fn value_or_failure(encoded: Result<Value, String>) -> (result: Result<Value, DispatchError>)
    ensures
        result_view(result) == encoded_or_failed(text_error(encoded)),
{
    match encoded {
        Ok(value) => Ok(value),
        Err(cause) => Err(
            DispatchError::Failed(concat2("Failed to encode response: ", cause.as_str())),
        ),
    }
}

/// The JSON of an answer.
pub open spec fn encoded_reply(reply: ClientReply) -> Result<Value, DispatchErrorView> {
    encoded_or_failed(
        match reply {
            ClientReply::RequestPermission(reply) => request_permission_reply(reply),
            ClientReply::ReadTextFile(reply) => read_text_file_reply(reply),
            ClientReply::WriteTextFile(reply) => write_text_file_reply(reply),
            ClientReply::CreateTerminal(reply) => create_terminal_reply(reply),
            ClientReply::TerminalOutput(reply) => terminal_output_reply(reply),
            ClientReply::WaitForTerminalExit(reply) => wait_for_terminal_exit_reply(reply),
            ClientReply::KillTerminal(reply) => kill_terminal_reply(reply),
            ClientReply::ReleaseTerminal(reply) => release_terminal_reply(reply),
        },
    )
}

/// Encodes an answer.
pub fn encode_client_reply(reply: ClientReply) -> (value: Result<Value, DispatchError>)
    ensures
        result_view(value) == encoded_reply(reply),
{
    value_or_failure(
        match reply {
            ClientReply::RequestPermission(reply) => encode_request_permission(reply),
            ClientReply::ReadTextFile(reply) => encode_read_text_file(reply),
            ClientReply::WriteTextFile(reply) => encode_write_text_file(reply),
            ClientReply::CreateTerminal(reply) => encode_create_terminal(reply),
            ClientReply::TerminalOutput(reply) => encode_terminal_output(reply),
            ClientReply::WaitForTerminalExit(reply) => encode_wait_for_terminal_exit(reply),
            ClientReply::KillTerminal(reply) => encode_kill_terminal(reply),
            ClientReply::ReleaseTerminal(reply) => encode_release_terminal(reply),
        },
    )
}

/// Whether `answer` is something that `delegate` can answer to `request`: what
/// the method that the request is for may return on it.
pub open spec fn answers<D: AcpClientDelegate>(
    delegate: D,
    request: AgentRequest,
    answer: Result<ClientReply, String>,
) -> bool {
    match request {
        AgentRequest::RequestPermission(request) => match answer {
            Ok(ClientReply::RequestPermission(reply)) => call_ensures(
                D::request_permission,
                (&delegate, request),
                Ok(reply),
            ),
            Ok(_) => false,
            Err(message) => call_ensures(
                D::request_permission,
                (&delegate, request),
                Err(message),
            ),
        },
        AgentRequest::ReadTextFile(request) => match answer {
            Ok(ClientReply::ReadTextFile(reply)) => call_ensures(
                D::read_text_file,
                (&delegate, request),
                Ok(reply),
            ),
            Ok(_) => false,
            Err(message) => call_ensures(
                D::read_text_file,
                (&delegate, request),
                Err(message),
            ),
        },
        AgentRequest::WriteTextFile(request) => match answer {
            Ok(ClientReply::WriteTextFile(reply)) => call_ensures(
                D::write_text_file,
                (&delegate, request),
                Ok(reply),
            ),
            Ok(_) => false,
            Err(message) => call_ensures(
                D::write_text_file,
                (&delegate, request),
                Err(message),
            ),
        },
        AgentRequest::CreateTerminal(request) => match answer {
            Ok(ClientReply::CreateTerminal(reply)) => call_ensures(
                D::create_terminal,
                (&delegate, request),
                Ok(reply),
            ),
            Ok(_) => false,
            Err(message) => call_ensures(
                D::create_terminal,
                (&delegate, request),
                Err(message),
            ),
        },
        AgentRequest::TerminalOutput(request) => match answer {
            Ok(ClientReply::TerminalOutput(reply)) => call_ensures(
                D::terminal_output,
                (&delegate, request),
                Ok(reply),
            ),
            Ok(_) => false,
            Err(message) => call_ensures(
                D::terminal_output,
                (&delegate, request),
                Err(message),
            ),
        },
        AgentRequest::WaitForTerminalExit(request) => match answer {
            Ok(ClientReply::WaitForTerminalExit(reply)) => call_ensures(
                D::wait_for_terminal_exit,
                (&delegate, request),
                Ok(reply),
            ),
            Ok(_) => false,
            Err(message) => call_ensures(
                D::wait_for_terminal_exit,
                (&delegate, request),
                Err(message),
            ),
        },
        AgentRequest::KillTerminal(request) => match answer {
            Ok(ClientReply::KillTerminal(reply)) => call_ensures(
                D::kill_terminal,
                (&delegate, request),
                Ok(reply),
            ),
            Ok(_) => false,
            Err(message) => call_ensures(
                D::kill_terminal,
                (&delegate, request),
                Err(message),
            ),
        },
        AgentRequest::ReleaseTerminal(request) => match answer {
            Ok(ClientReply::ReleaseTerminal(reply)) => call_ensures(
                D::release_terminal,
                (&delegate, request),
                Ok(reply),
            ),
            Ok(_) => false,
            Err(message) => call_ensures(
                D::release_terminal,
                (&delegate, request),
                Err(message),
            ),
        },
    }
}

/// Hands a request to the method of `delegate` that it is for.
pub fn answer_request<D: AcpClientDelegate>(delegate: &D, request: AgentRequest) -> (answer: Result<
    ClientReply,
    String,
>)
    ensures
        answers(*delegate, request, answer),
{
    match request {
        AgentRequest::RequestPermission(request) => match delegate.request_permission(request) {
            Ok(reply) => Ok(ClientReply::RequestPermission(reply)),
            Err(message) => Err(message),
        },
        AgentRequest::ReadTextFile(request) => match delegate.read_text_file(request) {
            Ok(reply) => Ok(ClientReply::ReadTextFile(reply)),
            Err(message) => Err(message),
        },
        AgentRequest::WriteTextFile(request) => match delegate.write_text_file(request) {
            Ok(reply) => Ok(ClientReply::WriteTextFile(reply)),
            Err(message) => Err(message),
        },
        AgentRequest::CreateTerminal(request) => match delegate.create_terminal(request) {
            Ok(reply) => Ok(ClientReply::CreateTerminal(reply)),
            Err(message) => Err(message),
        },
        AgentRequest::TerminalOutput(request) => match delegate.terminal_output(request) {
            Ok(reply) => Ok(ClientReply::TerminalOutput(reply)),
            Err(message) => Err(message),
        },
        AgentRequest::WaitForTerminalExit(request) => match delegate.wait_for_terminal_exit(request) {
            Ok(reply) => Ok(ClientReply::WaitForTerminalExit(reply)),
            Err(message) => Err(message),
        },
        AgentRequest::KillTerminal(request) => match delegate.kill_terminal(request) {
            Ok(reply) => Ok(ClientReply::KillTerminal(reply)),
            Err(message) => Err(message),
        },
        AgentRequest::ReleaseTerminal(request) => match delegate.release_terminal(request) {
            Ok(reply) => Ok(ClientReply::ReleaseTerminal(reply)),
            Err(message) => Err(message),
        },
    }
}

/// The outcome of a request that was answered.
pub open spec fn dispatched(answer: Result<ClientReply, String>) -> Result<
    Value,
    DispatchErrorView,
> {
    match answer {
        Ok(reply) => encoded_reply(reply),
        Err(message) => Err(DispatchErrorView::Failed(message@)),
    }
}

/// The outcome of a request, from the answer to it.
pub fn encode_answer(answer: Result<ClientReply, String>) -> (result: Result<Value, DispatchError>)
    ensures
        result_view(result) == dispatched(answer),
{
    match answer {
        Ok(reply) => encode_client_reply(reply),
        Err(message) => Err(DispatchError::Failed(message)),
    }
}

/// Parses a request of the agent, has `delegate` answer it, and encodes the answer.
pub fn dispatch_agent_request<D: AcpClientDelegate>(
    delegate: &D,
    method: &str,
    params: Value,
) -> (result: Result<Value, DispatchError>)
    ensures
        match parsed_request(method@, params) {
            Ok(request) => exists|answer: Result<ClientReply, String>|
                #[trigger] answers(*delegate, request, answer) && result_view(result) == dispatched(
                    answer,
                ),
            Err(error) => result_view(result) == Err::<Value, DispatchErrorView>(error),
        },
{
    match parse_agent_request(method, params) {
        Ok(request) => encode_answer(answer_request(delegate, request)),
        Err(error) => Err(error),
    }
}

/// What is written back to the agent for its request.
pub enum RpcReply {
    Result(Value),
    Error { code: i64, message: String },
}

/// What an [`RpcReply`] says.
pub enum RpcReplyView {
    Result(Value),
    Error { code: i64, message: Seq<char> },
}

impl View for RpcReply {
    type V = RpcReplyView;

    open spec fn view(&self) -> RpcReplyView {
        match self {
            RpcReply::Result(value) => RpcReplyView::Result(*value),
            RpcReply::Error { code, message } => RpcReplyView::Error {
                code: *code,
                message: message@,
            },
        }
    }
}

/// What the agent is told about the outcome of a request.
pub open spec fn reply_for(
    method: Seq<char>,
    result: Result<Value, DispatchErrorView>,
) -> RpcReplyView {
    match result {
        Ok(value) => RpcReplyView::Result(value),
        Err(DispatchErrorView::UnknownMethod) => RpcReplyView::Error {
            code: JSON_RPC_METHOD_NOT_FOUND,
            message: "Method "@ + method + " not implemented"@,
        },
        Err(DispatchErrorView::Failed(message)) => RpcReplyView::Error {
            code: JSON_RPC_INTERNAL_ERROR,
            message,
        },
    }
}

/// The reply to a request of the agent, from its outcome.
pub fn rpc_reply(method: &str, result: Result<Value, DispatchError>) -> (reply: RpcReply)
    ensures
        reply@ == reply_for(method@, result_view(result)),
{
    match result {
        Ok(value) => RpcReply::Result(value),
        Err(DispatchError::UnknownMethod) => RpcReply::Error {
            code: JSON_RPC_METHOD_NOT_FOUND,
            message: concat2(concat2("Method ", method).as_str(), " not implemented"),
        },
        Err(DispatchError::Failed(message)) => RpcReply::Error {
            code: JSON_RPC_INTERNAL_ERROR,
            message,
        },
    }
}

/// The method that a request is for.
pub open spec fn request_method(request: AgentRequest) -> Seq<char> {
    match request {
        AgentRequest::RequestPermission(_) => "session/request_permission"@,
        AgentRequest::ReadTextFile(_) => "fs/read_text_file"@,
        AgentRequest::WriteTextFile(_) => "fs/write_text_file"@,
        AgentRequest::CreateTerminal(_) => "terminal/create"@,
        AgentRequest::TerminalOutput(_) => "terminal/output"@,
        AgentRequest::WaitForTerminalExit(_) => "terminal/wait_for_exit"@,
        AgentRequest::KillTerminal(_) => "terminal/kill"@,
        AgentRequest::ReleaseTerminal(_) => "terminal/release"@,
    }
}

/// A request goes to the method of the delegate that it names, and to no other.
pub proof fn law_requests_reach_their_own_method(method: Seq<char>, params: Value)
    requires
        parsed_request(method, params) is Ok,
    ensures
        request_method(parsed_request(method, params)->Ok_0) == method,
{
}

/// Exactly the methods that the client does not implement are reported as
/// unknown, whatever the parameters.
pub proof fn law_only_client_methods_are_known(method: Seq<char>, params: Value)
    ensures
        (parsed_request(method, params) matches Err(DispatchErrorView::UnknownMethod))
            <==> !is_client_method(method),
{
}

/// A request for a method that the client does not implement is answered with
/// "method not found", and names the method.
pub proof fn law_unknown_methods_are_refused(method: Seq<char>, params: Value)
    requires
        !is_client_method(method),
    ensures
        parsed_request(method, params) is Err,
        reply_for(method, Err(parsed_request(method, params)->Err_0)) == (RpcReplyView::Error {
            code: JSON_RPC_METHOD_NOT_FOUND,
            message: "Method "@ + method + " not implemented"@,
        }),
{
}

/// Parameters that do not fit a method of the client, a delegate that fails and
/// an answer that cannot be encoded are all answered with "internal error".
pub proof fn law_failures_are_internal_errors(
    method: Seq<char>,
    params: Value,
    answer: Result<ClientReply, String>,
)
    requires
        is_client_method(method),
    ensures
        parsed_request(method, params) matches Err(error) ==> reply_for(method, Err(error)) is Error
            && reply_for(method, Err(error))->code == JSON_RPC_INTERNAL_ERROR,
        reply_for(method, dispatched(answer)) is Error <==> dispatched(answer) is Err,
        reply_for(method, dispatched(answer)) is Error ==> reply_for(method, dispatched(answer))->code
            == JSON_RPC_INTERNAL_ERROR,
        answer matches Err(message) ==> reply_for(method, dispatched(answer)) == (
        RpcReplyView::Error { code: JSON_RPC_INTERNAL_ERROR, message: message@ }),
{
}

/// Every literal method name is a text of its own.
proof fn lemma_method_names_differ()
    ensures
        "session/request_permission"@ != "fs/read_text_file"@,
        "session/request_permission"@ != "fs/write_text_file"@,
        "session/request_permission"@ != "terminal/create"@,
        "session/request_permission"@ != "terminal/output"@,
        "session/request_permission"@ != "terminal/wait_for_exit"@,
        "session/request_permission"@ != "terminal/kill"@,
        "session/request_permission"@ != "terminal/release"@,
        "fs/read_text_file"@ != "fs/write_text_file"@,
        "fs/read_text_file"@ != "terminal/create"@,
        "fs/read_text_file"@ != "terminal/output"@,
        "fs/read_text_file"@ != "terminal/wait_for_exit"@,
        "fs/read_text_file"@ != "terminal/kill"@,
        "fs/read_text_file"@ != "terminal/release"@,
        "fs/write_text_file"@ != "terminal/create"@,
        "fs/write_text_file"@ != "terminal/output"@,
        "fs/write_text_file"@ != "terminal/wait_for_exit"@,
        "fs/write_text_file"@ != "terminal/kill"@,
        "fs/write_text_file"@ != "terminal/release"@,
        "terminal/create"@ != "terminal/output"@,
        "terminal/create"@ != "terminal/wait_for_exit"@,
        "terminal/create"@ != "terminal/kill"@,
        "terminal/create"@ != "terminal/release"@,
        "terminal/output"@ != "terminal/wait_for_exit"@,
        "terminal/output"@ != "terminal/kill"@,
        "terminal/output"@ != "terminal/release"@,
        "terminal/wait_for_exit"@ != "terminal/kill"@,
        "terminal/wait_for_exit"@ != "terminal/release"@,
        "terminal/kill"@ != "terminal/release"@,
{
    reveal_strlit("session/request_permission");
    reveal_strlit("fs/read_text_file");
    reveal_strlit("fs/write_text_file");
    reveal_strlit("terminal/create");
    reveal_strlit("terminal/output");
    reveal_strlit("terminal/wait_for_exit");
    reveal_strlit("terminal/kill");
    reveal_strlit("terminal/release");
    assert("session/request_permission"@.len() == 26);
    assert("fs/read_text_file"@.len() == 17);
    assert("fs/write_text_file"@.len() == 18);
    assert("terminal/create"@.len() == 15);
    assert("terminal/output"@.len() == 15);
    assert("terminal/wait_for_exit"@.len() == 22);
    assert("terminal/kill"@.len() == 13);
    assert("terminal/release"@.len() == 16);
    assert("terminal/create"@[9] != "terminal/output"@[9]);
}

/// The failure that is told for parameters of `method` that do not fit.
pub open spec fn unfit(method: Seq<char>, cause: Seq<char>) -> Result<
    AgentRequest,
    DispatchErrorView,
> {
    Err(DispatchErrorView::Failed("Invalid params for "@ + method + ": "@ + cause))
}

/// Every method of the client is parsed as its own request, with the parameters
/// that came with it; parameters that do not fit are told with the method and the
/// cause.
pub proof fn law_methods_are_parsed(params: Value)
    ensures
        parsed_request("session/request_permission"@, params) == (match request_permission_request(params) {
            Ok(request) => Ok(AgentRequest::RequestPermission(request)),
            Err(cause) => unfit("session/request_permission"@, cause),
        }),
        parsed_request("fs/read_text_file"@, params) == (match read_text_file_request(params) {
            Ok(request) => Ok(AgentRequest::ReadTextFile(request)),
            Err(cause) => unfit("fs/read_text_file"@, cause),
        }),
        parsed_request("fs/write_text_file"@, params) == (match write_text_file_request(params) {
            Ok(request) => Ok(AgentRequest::WriteTextFile(request)),
            Err(cause) => unfit("fs/write_text_file"@, cause),
        }),
        parsed_request("terminal/create"@, params) == (match create_terminal_request(params) {
            Ok(request) => Ok(AgentRequest::CreateTerminal(request)),
            Err(cause) => unfit("terminal/create"@, cause),
        }),
        parsed_request("terminal/output"@, params) == (match terminal_output_request(params) {
            Ok(request) => Ok(AgentRequest::TerminalOutput(request)),
            Err(cause) => unfit("terminal/output"@, cause),
        }),
        parsed_request("terminal/wait_for_exit"@, params) == (match wait_for_terminal_exit_request(params) {
            Ok(request) => Ok(AgentRequest::WaitForTerminalExit(request)),
            Err(cause) => unfit("terminal/wait_for_exit"@, cause),
        }),
        parsed_request("terminal/kill"@, params) == (match kill_terminal_request(params) {
            Ok(request) => Ok(AgentRequest::KillTerminal(request)),
            Err(cause) => unfit("terminal/kill"@, cause),
        }),
        parsed_request("terminal/release"@, params) == (match release_terminal_request(params) {
            Ok(request) => Ok(AgentRequest::ReleaseTerminal(request)),
            Err(cause) => unfit("terminal/release"@, cause),
        }),
{
    lemma_method_names_differ();
    assert forall|method: Seq<char>, cause: Seq<char>| #[trigger]
        unfit(method, cause) == Err::<AgentRequest, DispatchErrorView>(
            invalid_params(method, cause),
        ) by {
        assert("Invalid params for "@ + method + ": "@ + cause =~= "Invalid params for "@ + method
            + (": "@ + cause));
    }
}

/// Parameters that do not fit are told with the method and the cause, and an
/// answer that cannot be encoded with the cause.
pub proof fn law_failures_name_their_cause(method: Seq<char>, cause: Seq<char>)
    ensures
        invalid_params(method, cause) == DispatchErrorView::Failed(
            "Invalid params for "@ + method + ": "@ + cause,
        ),
        unencodable(cause) == DispatchErrorView::Failed("Failed to encode response: "@ + cause),
{
    assert("Invalid params for "@ + method + ": "@ + cause =~= "Invalid params for "@ + method
        + (": "@ + cause));
}

/// What became of encoding an answer: the value itself, or a failure that keeps
/// the cause.
pub proof fn law_encoded_values_are_kept(value: Value, cause: Seq<char>)
    ensures
        encoded_or_failed(Ok(value)) == Ok::<Value, DispatchErrorView>(value),
        encoded_or_failed(Err(cause)) == Err::<Value, DispatchErrorView>(
            DispatchErrorView::Failed("Failed to encode response: "@ + cause),
        ),
{
}

/// An answer of the delegate is encoded as what it is.
pub proof fn law_answers_are_encoded(
    request_permission: schema::RequestPermissionResponse,
    read_text_file: schema::ReadTextFileResponse,
    write_text_file: schema::WriteTextFileResponse,
    create_terminal: schema::CreateTerminalResponse,
    terminal_output: schema::TerminalOutputResponse,
    wait_for_terminal_exit: schema::WaitForTerminalExitResponse,
    kill_terminal: schema::KillTerminalResponse,
    release_terminal: schema::ReleaseTerminalResponse,
    message: String,
)
    ensures
        dispatched(Ok(ClientReply::RequestPermission(request_permission))) == encoded_or_failed(
            request_permission_reply(request_permission),
        ),
        encoded_reply(ClientReply::RequestPermission(request_permission)) == encoded_or_failed(
            request_permission_reply(request_permission),
        ),
        dispatched(Ok(ClientReply::ReadTextFile(read_text_file))) == encoded_or_failed(
            read_text_file_reply(read_text_file),
        ),
        encoded_reply(ClientReply::ReadTextFile(read_text_file)) == encoded_or_failed(
            read_text_file_reply(read_text_file),
        ),
        dispatched(Ok(ClientReply::WriteTextFile(write_text_file))) == encoded_or_failed(
            write_text_file_reply(write_text_file),
        ),
        encoded_reply(ClientReply::WriteTextFile(write_text_file)) == encoded_or_failed(
            write_text_file_reply(write_text_file),
        ),
        dispatched(Ok(ClientReply::CreateTerminal(create_terminal))) == encoded_or_failed(
            create_terminal_reply(create_terminal),
        ),
        encoded_reply(ClientReply::CreateTerminal(create_terminal)) == encoded_or_failed(
            create_terminal_reply(create_terminal),
        ),
        dispatched(Ok(ClientReply::TerminalOutput(terminal_output))) == encoded_or_failed(
            terminal_output_reply(terminal_output),
        ),
        encoded_reply(ClientReply::TerminalOutput(terminal_output)) == encoded_or_failed(
            terminal_output_reply(terminal_output),
        ),
        dispatched(Ok(ClientReply::WaitForTerminalExit(wait_for_terminal_exit))) == encoded_or_failed(
            wait_for_terminal_exit_reply(wait_for_terminal_exit),
        ),
        encoded_reply(ClientReply::WaitForTerminalExit(wait_for_terminal_exit)) == encoded_or_failed(
            wait_for_terminal_exit_reply(wait_for_terminal_exit),
        ),
        dispatched(Ok(ClientReply::KillTerminal(kill_terminal))) == encoded_or_failed(
            kill_terminal_reply(kill_terminal),
        ),
        encoded_reply(ClientReply::KillTerminal(kill_terminal)) == encoded_or_failed(
            kill_terminal_reply(kill_terminal),
        ),
        dispatched(Ok(ClientReply::ReleaseTerminal(release_terminal))) == encoded_or_failed(
            release_terminal_reply(release_terminal),
        ),
        encoded_reply(ClientReply::ReleaseTerminal(release_terminal)) == encoded_or_failed(
            release_terminal_reply(release_terminal),
        ),
        dispatched(Err(message)) == Err::<Value, DispatchErrorView>(
            DispatchErrorView::Failed(message@),
        ),
{
}

/// A `session/request_permission` request is answered with what the delegate returned on this
/// very request: its reply as it is, or its failure as it is.
pub proof fn law_request_permission_is_answered<D: AcpClientDelegate>(
    delegate: D,
    request: schema::RequestPermissionRequest,
    answer: Result<ClientReply, String>,
)
    requires
        answers(delegate, AgentRequest::RequestPermission(request), answer),
    ensures
        answer is Ok ==> answer->Ok_0 is RequestPermission && call_ensures(
            D::request_permission,
            (&delegate, request),
            Ok(answer->Ok_0->RequestPermission_0),
        ),
        answer is Err ==> call_ensures(D::request_permission, (&delegate, request), Err(answer->Err_0)),
{
}

/// A `fs/read_text_file` request is answered with what the delegate returned on this
/// very request: its reply as it is, or its failure as it is.
pub proof fn law_read_text_file_is_answered<D: AcpClientDelegate>(
    delegate: D,
    request: schema::ReadTextFileRequest,
    answer: Result<ClientReply, String>,
)
    requires
        answers(delegate, AgentRequest::ReadTextFile(request), answer),
    ensures
        answer is Ok ==> answer->Ok_0 is ReadTextFile && call_ensures(
            D::read_text_file,
            (&delegate, request),
            Ok(answer->Ok_0->ReadTextFile_0),
        ),
        answer is Err ==> call_ensures(D::read_text_file, (&delegate, request), Err(answer->Err_0)),
{
}

/// A `fs/write_text_file` request is answered with what the delegate returned on this
/// very request: its reply as it is, or its failure as it is.
pub proof fn law_write_text_file_is_answered<D: AcpClientDelegate>(
    delegate: D,
    request: schema::WriteTextFileRequest,
    answer: Result<ClientReply, String>,
)
    requires
        answers(delegate, AgentRequest::WriteTextFile(request), answer),
    ensures
        answer is Ok ==> answer->Ok_0 is WriteTextFile && call_ensures(
            D::write_text_file,
            (&delegate, request),
            Ok(answer->Ok_0->WriteTextFile_0),
        ),
        answer is Err ==> call_ensures(D::write_text_file, (&delegate, request), Err(answer->Err_0)),
{
}

/// A `terminal/create` request is answered with what the delegate returned on this
/// very request: its reply as it is, or its failure as it is.
pub proof fn law_create_terminal_is_answered<D: AcpClientDelegate>(
    delegate: D,
    request: schema::CreateTerminalRequest,
    answer: Result<ClientReply, String>,
)
    requires
        answers(delegate, AgentRequest::CreateTerminal(request), answer),
    ensures
        answer is Ok ==> answer->Ok_0 is CreateTerminal && call_ensures(
            D::create_terminal,
            (&delegate, request),
            Ok(answer->Ok_0->CreateTerminal_0),
        ),
        answer is Err ==> call_ensures(D::create_terminal, (&delegate, request), Err(answer->Err_0)),
{
}

/// A `terminal/output` request is answered with what the delegate returned on this
/// very request: its reply as it is, or its failure as it is.
pub proof fn law_terminal_output_is_answered<D: AcpClientDelegate>(
    delegate: D,
    request: schema::TerminalOutputRequest,
    answer: Result<ClientReply, String>,
)
    requires
        answers(delegate, AgentRequest::TerminalOutput(request), answer),
    ensures
        answer is Ok ==> answer->Ok_0 is TerminalOutput && call_ensures(
            D::terminal_output,
            (&delegate, request),
            Ok(answer->Ok_0->TerminalOutput_0),
        ),
        answer is Err ==> call_ensures(D::terminal_output, (&delegate, request), Err(answer->Err_0)),
{
}

/// A `terminal/wait_for_exit` request is answered with what the delegate returned on this
/// very request: its reply as it is, or its failure as it is.
pub proof fn law_wait_for_terminal_exit_is_answered<D: AcpClientDelegate>(
    delegate: D,
    request: schema::WaitForTerminalExitRequest,
    answer: Result<ClientReply, String>,
)
    requires
        answers(delegate, AgentRequest::WaitForTerminalExit(request), answer),
    ensures
        answer is Ok ==> answer->Ok_0 is WaitForTerminalExit && call_ensures(
            D::wait_for_terminal_exit,
            (&delegate, request),
            Ok(answer->Ok_0->WaitForTerminalExit_0),
        ),
        answer is Err ==> call_ensures(D::wait_for_terminal_exit, (&delegate, request), Err(answer->Err_0)),
{
}

/// A `terminal/kill` request is answered with what the delegate returned on this
/// very request: its reply as it is, or its failure as it is.
pub proof fn law_kill_terminal_is_answered<D: AcpClientDelegate>(
    delegate: D,
    request: schema::KillTerminalRequest,
    answer: Result<ClientReply, String>,
)
    requires
        answers(delegate, AgentRequest::KillTerminal(request), answer),
    ensures
        answer is Ok ==> answer->Ok_0 is KillTerminal && call_ensures(
            D::kill_terminal,
            (&delegate, request),
            Ok(answer->Ok_0->KillTerminal_0),
        ),
        answer is Err ==> call_ensures(D::kill_terminal, (&delegate, request), Err(answer->Err_0)),
{
}

/// A `terminal/release` request is answered with what the delegate returned on this
/// very request: its reply as it is, or its failure as it is.
pub proof fn law_release_terminal_is_answered<D: AcpClientDelegate>(
    delegate: D,
    request: schema::ReleaseTerminalRequest,
    answer: Result<ClientReply, String>,
)
    requires
        answers(delegate, AgentRequest::ReleaseTerminal(request), answer),
    ensures
        answer is Ok ==> answer->Ok_0 is ReleaseTerminal && call_ensures(
            D::release_terminal,
            (&delegate, request),
            Ok(answer->Ok_0->ReleaseTerminal_0),
        ),
        answer is Err ==> call_ensures(D::release_terminal, (&delegate, request), Err(answer->Err_0)),
{
}

/// The agent is told the value of a request, that a method is not there by the
/// code for it and by name, and any other failure by the code for internal errors
/// and in its own words.
pub proof fn law_outcomes_are_told(method: Seq<char>, value: Value, message: Seq<char>)
    ensures
        reply_for(method, Ok(value)) == RpcReplyView::Result(value),
        reply_for(method, Err(DispatchErrorView::UnknownMethod)) == (RpcReplyView::Error {
            code: -32601 as i64,
            message: "Method "@ + (method + " not implemented"@),
        }),
        reply_for(method, Err(DispatchErrorView::Failed(message))) == (RpcReplyView::Error {
            code: -32603 as i64,
            message,
        }),
{
    assert("Method "@ + method + " not implemented"@ =~= "Method "@ + (method
        + " not implemented"@));
}

/// The view of a reply or a failure tells its kind and all that it holds.
pub proof fn law_reply_views_are_faithful<T>(
    value: Value,
    code: i64,
    message: String,
    kept: T,
    error: DispatchError,
)
    ensures
        RpcReply::Result(value)@ == RpcReplyView::Result(value),
        (RpcReply::Error { code, message })@ == (RpcReplyView::Error { code, message: message@ }),
        DispatchError::UnknownMethod@ is UnknownMethod,
        DispatchError::Failed(message)@ == DispatchErrorView::Failed(message@),
        result_view::<T>(Ok(kept)) == Ok::<T, DispatchErrorView>(kept),
        result_view::<T>(Err(error)) == Err::<T, DispatchErrorView>(error@),
{
}

/// The client has no methods but these eight.
pub proof fn law_other_methods_are_unknown(method: Seq<char>, params: Value)
    requires
        method != "session/request_permission"@,
        method != "fs/read_text_file"@,
        method != "fs/write_text_file"@,
        method != "terminal/create"@,
        method != "terminal/output"@,
        method != "terminal/wait_for_exit"@,
        method != "terminal/kill"@,
        method != "terminal/release"@,
    ensures
        parsed_request(method, params) == Err::<AgentRequest, DispatchErrorView>(
            DispatchErrorView::UnknownMethod,
        ),
{
}

} // verus!
