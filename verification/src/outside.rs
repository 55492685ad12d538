//! Types of other crates that the library carries without looking inside.

use vstd::prelude::*;

verus! {

/// `serde_json::Value`: any JSON value.
#[verifier::external_type_specification]
#[verifier::external_body]
pub struct ExJsonValue(serde_json::Value);

/// `serde_json::Error`: why encoding or decoding a JSON value failed.
#[verifier::external_type_specification]
#[verifier::external_body]
pub struct ExJsonError(serde_json::Error);

/// `serde_json::Map`: the members of a JSON object.
#[verifier::external_type_specification]
#[verifier::external_body]
#[verifier::reject_recursive_types(K)]
#[verifier::reject_recursive_types(V)]
pub struct ExJsonMap<K, V>(serde_json::Map<K, V>);

/// The category of a tool.
#[verifier::external_type_specification]
#[verifier::external_body]
pub struct ExToolKind(agent_client_protocol_schema::v1::ToolKind);

/// The execution status of a tool call.
#[verifier::external_type_specification]
#[verifier::external_body]
pub struct ExToolCallStatus(agent_client_protocol_schema::v1::ToolCallStatus);

/// One piece of content that a tool call produced.
#[verifier::external_type_specification]
#[verifier::external_body]
pub struct ExToolCallContent(agent_client_protocol_schema::v1::ToolCallContent);

/// A file location that a tool call touches.
#[verifier::external_type_specification]
#[verifier::external_body]
pub struct ExToolCallLocation(agent_client_protocol_schema::v1::ToolCallLocation);

/// The agent's plan for its work.
#[verifier::external_type_specification]
#[verifier::external_body]
pub struct ExPlan(agent_client_protocol_schema::v1::Plan);

/// A way to authenticate that an agent offers.
#[verifier::external_type_specification]
#[verifier::external_body]
pub struct ExAuthMethod(agent_client_protocol_schema::v1::AuthMethod);

/// A path of the file system.
#[verifier::external_type_specification]
#[verifier::external_body]
pub struct ExPathBuf(std::path::PathBuf);

/// One block of content as the agent gets it in a prompt.
#[verifier::external_type_specification]
#[verifier::external_body]
pub struct ExContentBlock(agent_client_protocol_schema::v1::ContentBlock);

/// A `session/update` as it came from the agent.
#[verifier::external_type_specification]
#[verifier::external_body]
pub struct ExSessionNotification(agent_client_protocol_schema::v1::SessionNotification);

/// The `InitializeRequest` of the protocol.
#[verifier::external_type_specification]
#[verifier::external_body]
pub struct ExInitializeRequest(agent_client_protocol_schema::v1::InitializeRequest);

/// The `AuthenticateRequest` of the protocol.
#[verifier::external_type_specification]
#[verifier::external_body]
pub struct ExAuthenticateRequest(agent_client_protocol_schema::v1::AuthenticateRequest);

/// The `NewSessionRequest` of the protocol.
#[verifier::external_type_specification]
#[verifier::external_body]
pub struct ExNewSessionRequest(agent_client_protocol_schema::v1::NewSessionRequest);

/// The `LoadSessionRequest` of the protocol.
#[verifier::external_type_specification]
#[verifier::external_body]
pub struct ExLoadSessionRequest(agent_client_protocol_schema::v1::LoadSessionRequest);

/// The `PromptRequest` of the protocol.
#[verifier::external_type_specification]
#[verifier::external_body]
pub struct ExPromptRequest(agent_client_protocol_schema::v1::PromptRequest);

/// The `InitializeResponse` of the protocol.
#[verifier::external_type_specification]
#[verifier::external_body]
pub struct ExInitializeResponse(agent_client_protocol_schema::v1::InitializeResponse);

/// The `AuthenticateResponse` of the protocol.
#[verifier::external_type_specification]
#[verifier::external_body]
pub struct ExAuthenticateResponse(agent_client_protocol_schema::v1::AuthenticateResponse);

/// The `NewSessionResponse` of the protocol.
#[verifier::external_type_specification]
#[verifier::external_body]
pub struct ExNewSessionResponse(agent_client_protocol_schema::v1::NewSessionResponse);

/// The `LoadSessionResponse` of the protocol.
#[verifier::external_type_specification]
#[verifier::external_body]
pub struct ExLoadSessionResponse(agent_client_protocol_schema::v1::LoadSessionResponse);

/// The `PromptResponse` of the protocol.
#[verifier::external_type_specification]
#[verifier::external_body]
pub struct ExPromptResponse(agent_client_protocol_schema::v1::PromptResponse);

/// The `RequestPermissionRequest` of the protocol.
#[verifier::external_type_specification]
#[verifier::external_body]
pub struct ExRequestPermissionRequest(agent_client_protocol_schema::v1::RequestPermissionRequest);

/// The `RequestPermissionResponse` of the protocol.
#[verifier::external_type_specification]
#[verifier::external_body]
pub struct ExRequestPermissionResponse(agent_client_protocol_schema::v1::RequestPermissionResponse);

/// The `ReadTextFileRequest` of the protocol.
#[verifier::external_type_specification]
#[verifier::external_body]
pub struct ExReadTextFileRequest(agent_client_protocol_schema::v1::ReadTextFileRequest);

/// The `ReadTextFileResponse` of the protocol.
#[verifier::external_type_specification]
#[verifier::external_body]
pub struct ExReadTextFileResponse(agent_client_protocol_schema::v1::ReadTextFileResponse);

/// The `WriteTextFileRequest` of the protocol.
#[verifier::external_type_specification]
#[verifier::external_body]
pub struct ExWriteTextFileRequest(agent_client_protocol_schema::v1::WriteTextFileRequest);

/// The `WriteTextFileResponse` of the protocol.
#[verifier::external_type_specification]
#[verifier::external_body]
pub struct ExWriteTextFileResponse(agent_client_protocol_schema::v1::WriteTextFileResponse);

/// The `CreateTerminalRequest` of the protocol.
#[verifier::external_type_specification]
#[verifier::external_body]
pub struct ExCreateTerminalRequest(agent_client_protocol_schema::v1::CreateTerminalRequest);

/// The `CreateTerminalResponse` of the protocol.
#[verifier::external_type_specification]
#[verifier::external_body]
pub struct ExCreateTerminalResponse(agent_client_protocol_schema::v1::CreateTerminalResponse);

/// The `TerminalOutputRequest` of the protocol.
#[verifier::external_type_specification]
#[verifier::external_body]
pub struct ExTerminalOutputRequest(agent_client_protocol_schema::v1::TerminalOutputRequest);

/// The `TerminalOutputResponse` of the protocol.
#[verifier::external_type_specification]
#[verifier::external_body]
pub struct ExTerminalOutputResponse(agent_client_protocol_schema::v1::TerminalOutputResponse);

/// The `WaitForTerminalExitRequest` of the protocol.
#[verifier::external_type_specification]
#[verifier::external_body]
pub struct ExWaitForTerminalExitRequest(
    agent_client_protocol_schema::v1::WaitForTerminalExitRequest,
);

/// The `WaitForTerminalExitResponse` of the protocol.
#[verifier::external_type_specification]
#[verifier::external_body]
pub struct ExWaitForTerminalExitResponse(
    agent_client_protocol_schema::v1::WaitForTerminalExitResponse,
);

/// The `KillTerminalRequest` of the protocol.
#[verifier::external_type_specification]
#[verifier::external_body]
pub struct ExKillTerminalRequest(agent_client_protocol_schema::v1::KillTerminalRequest);

/// The `KillTerminalResponse` of the protocol.
#[verifier::external_type_specification]
#[verifier::external_body]
pub struct ExKillTerminalResponse(agent_client_protocol_schema::v1::KillTerminalResponse);

/// The `ReleaseTerminalRequest` of the protocol.
#[verifier::external_type_specification]
#[verifier::external_body]
pub struct ExReleaseTerminalRequest(agent_client_protocol_schema::v1::ReleaseTerminalRequest);

/// The `ReleaseTerminalResponse` of the protocol.
#[verifier::external_type_specification]
#[verifier::external_body]
pub struct ExReleaseTerminalResponse(agent_client_protocol_schema::v1::ReleaseTerminalResponse);

/// The option that was selected to answer a permission request.
#[verifier::external_type_specification]
#[verifier::external_body]
pub struct ExSelectedPermissionOutcome(
    agent_client_protocol_schema::v1::SelectedPermissionOutcome,
);

} // verus!
