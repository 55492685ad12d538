//! The response events that the conversation store consumes.
//!
//! One prompt turn is one stream: [`ResponseEvent::Init`], then any number of
//! [`ResponseEvent::ClientActions`], then [`ResponseEvent::Finished`].

use vstd::prelude::*;

use crate::lines::line_views;

verus! {

/// The paths of a message that an action touches.
#[derive(Debug, PartialEq)]
pub struct FieldMask {
    pub paths: Vec<String>,
}

impl View for FieldMask {
    type V = Seq<Seq<char>>;

    open spec fn view(&self) -> Seq<Seq<char>> {
        line_views(self.paths@)
    }
}

/// Who runs a tool, and what is known about the call.
#[derive(Debug, PartialEq)]
pub enum Tool {
    /// A tool that runs elsewhere and is only displayed.
    Server { payload: String },
    /// A tool that the client is asked to run.
    Client { payload: String },
}

/// What a [`Tool`] says.
pub enum ToolView {
    Server { payload: Seq<char> },
    Client { payload: Seq<char> },
}

impl View for Tool {
    type V = ToolView;

    open spec fn view(&self) -> ToolView {
        match self {
            Tool::Server { payload } => ToolView::Server { payload: payload@ },
            Tool::Client { payload } => ToolView::Client { payload: payload@ },
        }
    }
}

/// The content of one message.
#[derive(Debug, PartialEq)]
pub enum MessageContent {
    AgentOutput { text: String },
    AgentReasoning { reasoning: String },
    ToolCall { tool_call_id: String, tool: Tool },
}

/// What a [`MessageContent`] says.
pub enum ContentView {
    AgentOutput { text: Seq<char> },
    AgentReasoning { reasoning: Seq<char> },
    ToolCall { tool_call_id: Seq<char>, tool: ToolView },
}

impl View for MessageContent {
    type V = ContentView;

    open spec fn view(&self) -> ContentView {
        match self {
            MessageContent::AgentOutput { text } => ContentView::AgentOutput { text: text@ },
            MessageContent::AgentReasoning { reasoning } => ContentView::AgentReasoning {
                reasoning: reasoning@,
            },
            MessageContent::ToolCall { tool_call_id, tool } => ContentView::ToolCall {
                tool_call_id: tool_call_id@,
                tool: tool@,
            },
        }
    }
}

/// One message of a task.
#[derive(Debug, PartialEq)]
pub struct Message {
    pub id: String,
    pub task_id: String,
    pub request_id: String,
    pub server_message_data: String,
    pub message: Option<MessageContent>,
}

/// What a [`Message`] says.
pub struct MessageView {
    pub id: Seq<char>,
    pub task_id: Seq<char>,
    pub request_id: Seq<char>,
    pub server_message_data: Seq<char>,
    pub message: Option<ContentView>,
}

impl View for Message {
    type V = MessageView;

    open spec fn view(&self) -> MessageView {
        MessageView {
            id: self.id@,
            task_id: self.task_id@,
            request_id: self.request_id@,
            server_message_data: self.server_message_data@,
            message: match self.message {
                Some(content) => Some(content@),
                None => None,
            },
        }
    }
}

/// One change to the conversation store.
#[derive(Debug, PartialEq)]
pub enum ClientAction {
    /// Adds messages at the end of a task.
    AddMessagesToTask { task_id: String, messages: Vec<Message> },
    /// Appends the masked fields of `message` to the message with the same id.
    AppendToMessageContent { task_id: String, message: Message, mask: FieldMask },
    /// Replaces the masked fields of the message with the same id.
    UpdateTaskMessage { task_id: String, message: Message, mask: FieldMask },
}

/// What a [`ClientAction`] says.
pub enum ActionView {
    AddMessagesToTask { task_id: Seq<char>, messages: Seq<MessageView> },
    AppendToMessageContent { task_id: Seq<char>, message: MessageView, mask: Seq<Seq<char>> },
    UpdateTaskMessage { task_id: Seq<char>, message: MessageView, mask: Seq<Seq<char>> },
}

impl View for ClientAction {
    type V = ActionView;

    open spec fn view(&self) -> ActionView {
        match self {
            ClientAction::AddMessagesToTask { task_id, messages } => ActionView::AddMessagesToTask {
                task_id: task_id@,
                messages: messages@.map_values(|m: Message| m@),
            },
            ClientAction::AppendToMessageContent { task_id, message, mask } => {
                ActionView::AppendToMessageContent {
                    task_id: task_id@,
                    message: message@,
                    mask: mask@,
                }
            },
            ClientAction::UpdateTaskMessage { task_id, message, mask } => {
                ActionView::UpdateTaskMessage { task_id: task_id@, message: message@, mask: mask@ }
            },
        }
    }
}

/// Why a stream ended.
#[derive(Debug, Clone, Copy, PartialEq, Eq)]
pub enum FinishReason {
    Done,
    MaxTokenLimit,
    Other,
}

/// One event of a response stream.
#[derive(Debug, PartialEq)]
pub enum ResponseEvent {
    Init { conversation_id: String, request_id: String, run_id: String },
    ClientActions { actions: Vec<ClientAction> },
    Finished { reason: FinishReason },
}

/// What a [`ResponseEvent`] says.
pub enum EventView {
    Init { conversation_id: Seq<char>, request_id: Seq<char>, run_id: Seq<char> },
    ClientActions { actions: Seq<ActionView> },
    Finished { reason: FinishReason },
}

impl View for ResponseEvent {
    type V = EventView;

    open spec fn view(&self) -> EventView {
        match self {
            ResponseEvent::Init { conversation_id, request_id, run_id } => EventView::Init {
                conversation_id: conversation_id@,
                request_id: request_id@,
                run_id: run_id@,
            },
            ResponseEvent::ClientActions { actions } => EventView::ClientActions {
                actions: actions@.map_values(|a: ClientAction| a@),
            },
            ResponseEvent::Finished { reason } => EventView::Finished { reason: *reason },
        }
    }
}

/// The view of a message holds every field of it.
pub proof fn law_message_views_are_faithful(message: Message)
    ensures
        message@.id == message.id@,
        message@.task_id == message.task_id@,
        message@.request_id == message.request_id@,
        message@.server_message_data == message.server_message_data@,
        message@.message is Some <==> message.message is Some,
        message.message is Some ==> message@.message->0 == (message.message->0)@,
{
}

/// The view of a content tells its kind and all that it holds.
pub proof fn law_content_views_are_faithful(text: String, tool_call_id: String)
    ensures
        (MessageContent::AgentOutput { text })@ == (ContentView::AgentOutput { text: text@ }),
        (MessageContent::AgentReasoning { reasoning: text })@ == (ContentView::AgentReasoning {
            reasoning: text@,
        }),
        (MessageContent::ToolCall { tool_call_id, tool: Tool::Server { payload: text } })@ == (
        ContentView::ToolCall {
            tool_call_id: tool_call_id@,
            tool: ToolView::Server { payload: text@ },
        }),
        (MessageContent::ToolCall { tool_call_id, tool: Tool::Client { payload: text } })@ == (
        ContentView::ToolCall {
            tool_call_id: tool_call_id@,
            tool: ToolView::Client { payload: text@ },
        }),
{
}

/// The view of an action tells its kind, its task, its messages and its mask.
pub proof fn law_action_views_are_faithful(
    task_id: String,
    messages: Vec<Message>,
    message: Message,
    mask: FieldMask,
)
    ensures
        ({
            let added = (ClientAction::AddMessagesToTask { task_id, messages })@;
            &&& added is AddMessagesToTask
            &&& added->AddMessagesToTask_task_id == task_id@
            &&& added->messages.len() == messages@.len()
            &&& forall|i: int|
                0 <= i < messages@.len() ==> #[trigger] added->messages[i] == messages@[i]@
        }),
        (ClientAction::AppendToMessageContent { task_id, message, mask })@ == (
        ActionView::AppendToMessageContent { task_id: task_id@, message: message@, mask: mask@ }),
        (ClientAction::UpdateTaskMessage { task_id, message, mask })@ == (
        ActionView::UpdateTaskMessage { task_id: task_id@, message: message@, mask: mask@ }),
        mask@.len() == mask.paths@.len(),
        forall|i: int| 0 <= i < mask.paths@.len() ==> #[trigger] mask@[i] == mask.paths@[i]@,
{
}

/// The view of an event tells its kind and all that it holds.
pub proof fn law_event_views_are_faithful(
    conversation_id: String,
    request_id: String,
    run_id: String,
    actions: Vec<ClientAction>,
    reason: FinishReason,
)
    ensures
        (ResponseEvent::Init { conversation_id, request_id, run_id })@ == (EventView::Init {
            conversation_id: conversation_id@,
            request_id: request_id@,
            run_id: run_id@,
        }),
        ({
            let event = (ResponseEvent::ClientActions { actions })@;
            &&& event is ClientActions
            &&& event->actions.len() == actions@.len()
            &&& forall|i: int|
                0 <= i < actions@.len() ==> #[trigger] event->actions[i] == actions@[i]@
        }),
        (ResponseEvent::Finished { reason })@ == (EventView::Finished { reason }),
{
}

} // verus!
