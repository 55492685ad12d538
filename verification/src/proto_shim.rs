//! Maps session updates of an agent onto response events.
//!
//! Everything downstream of a stream of [`ResponseEvent`]s (history, streaming
//! markdown, tool cards, persistence) does not care which backend produced it.
//! The shim lets an agent drive that pipeline:
//!
//! - turn start: [`ResponseEvent::Init`]
//! - agent message chunk: [`ClientAction::AddMessagesToTask`] for the first
//!   chunk, then [`ClientAction::AppendToMessageContent`] with a field mask
//! - agent thought chunk: the same, as reasoning
//! - tool call and tool call update: a [`Tool::Server`] message that carries
//!   the tool call as opaque JSON. Such tools are run by the agent, so the
//!   client only displays them.
//! - turn end: [`ResponseEvent::Finished`]

use agent_client_protocol_schema::v1 as schema;
use vstd::prelude::*;

use crate::ids::{is_version_4_text, random_uuid_text};
use crate::response::{
    ActionView, ClientAction, ContentView, EventView, FieldMask, FinishReason, Message,
    MessageContent, MessageView, ResponseEvent, Tool, ToolView,
};
use crate::session::{
    block_text, content_block_text, ChunkContent, ContentChunk, SessionUpdate, StopReason, ToolCall,
    ToolCallUpdate, ToolCallUpdateView, ToolCallView,
};

verus! {

/// Field-mask path for appending streamed agent text.
pub const AGENT_OUTPUT_TEXT_MASK: &'static str = "message.agent_output.text";

/// Field-mask path for appending streamed reasoning text.
pub const AGENT_REASONING_MASK: &'static str = "message.agent_reasoning.reasoning";

/// Field-mask path for replacing a tool call on update.
pub const TOOL_CALL_MASK: &'static str = "message.tool_call";

/// What a streamed chunk of text belongs to.
#[derive(Debug, Clone, Copy, PartialEq, Eq)]
pub enum StreamingKind {
    Text,
    Reasoning,
}

/// Which streaming message (if any) the shim is currently appending to.
enum StreamingTarget {
    Idle,
    Text { message_id: String },
    Reasoning { message_id: String },
}

/// Stateful translator from session updates to response events for one prompt turn.
pub struct AcpProtoShim {
    task_id: String,
    request_id: String,
    target: StreamingTarget,
}

/// What an [`AcpProtoShim`] knows. `target` is the kind and the id of the
/// message that chunks are appended to.
pub struct ShimView {
    pub task_id: Seq<char>,
    pub request_id: Seq<char>,
    pub target: Option<(StreamingKind, Seq<char>)>,
}

impl View for AcpProtoShim {
    type V = ShimView;

    closed spec fn view(&self) -> ShimView {
        ShimView {
            task_id: self.task_id@,
            request_id: self.request_id@,
            target: match self.target {
                StreamingTarget::Idle => None,
                StreamingTarget::Text { message_id } => Some((StreamingKind::Text, message_id@)),
                StreamingTarget::Reasoning { message_id } => Some(
                    (StreamingKind::Reasoning, message_id@),
                ),
            },
        }
    }
}

/// The JSON text of a tool call, `None` if it cannot be encoded.
pub uninterp spec fn tool_call_json(tool_call: ToolCallView) -> Option<Seq<char>>;

/// The JSON text of a tool call update, `None` if it cannot be encoded.
pub uninterp spec fn tool_call_update_json(update: ToolCallUpdateView) -> Option<Seq<char>>;

/// Encodes a tool call with `serde_json::to_string`.
///
/// The text is a function of what the tool call says; [`tool_call_json`] names
/// it, and names a failure to encode with `None`. What the JSON looks like is
/// not stated.
#[verifier::external_body]
fn encode_tool_call(tool_call: &ToolCall) -> (encoded: Result<String, serde_json::Error>)
    ensures
        match encoded {
            Ok(text) => tool_call_json(tool_call@) == Some(text@),
            Err(_) => tool_call_json(tool_call@) is None,
        },
{
    serde_json::to_string(
        &schema::ToolCall::new(tool_call.tool_call_id.clone(), tool_call.title.clone())
            .kind(tool_call.kind)
            .status(tool_call.status)
            .content(tool_call.content.clone())
            .locations(tool_call.locations.clone())
            .raw_input(tool_call.raw_input.clone())
            .raw_output(tool_call.raw_output.clone())
            .meta(tool_call.meta.clone()),
    )
}

/// Encodes a tool call update with `serde_json::to_string`.
///
/// The text is a function of what the update says; [`tool_call_update_json`]
/// names it, and names a failure to encode with `None`. What the JSON looks like
/// is not stated.
#[verifier::external_body]
fn encode_tool_call_update(update: &ToolCallUpdate) -> (encoded: Result<String, serde_json::Error>)
    ensures
        match encoded {
            Ok(text) => tool_call_update_json(update@) == Some(text@),
            Err(_) => tool_call_update_json(update@) is None,
        },
{
    let fields = schema::ToolCallUpdateFields::new()
        .kind(update.fields.kind)
        .status(update.fields.status)
        .title(update.fields.title.clone())
        .content(update.fields.content.clone())
        .locations(update.fields.locations.clone())
        .raw_input(update.fields.raw_input.clone())
        .raw_output(update.fields.raw_output.clone());
    serde_json::to_string(
        &schema::ToolCallUpdate::new(update.tool_call_id.clone(), fields).meta(update.meta.clone()),
    )
}

/// The payload made of encoded JSON: the text itself, or nothing where encoding failed.
pub open spec fn payload_text(json: Option<Seq<char>>) -> Seq<char> {
    match json {
        Some(text) => text,
        None => seq![],
    }
}

/// The payload for what came back from encoding.
pub fn payload_or_empty(encoded: Result<String, serde_json::Error>) -> (payload: String)
    ensures
        payload@ == payload_text(
            match encoded {
                Ok(text) => Some(text@),
                Err(_) => None,
            },
        ),
{
    match encoded {
        Ok(text) => text,
        Err(_) => String::new(),
    }
}

/// The payload that displays a tool call.
pub fn tool_call_payload(tool_call: &ToolCall) -> (payload: String)
    ensures
        payload@ == payload_text(tool_call_json(tool_call@)),
{
    payload_or_empty(encode_tool_call(tool_call))
}

/// A message of this turn with the given id and content.
pub open spec fn turn_message(shim: ShimView, id: Seq<char>, content: ContentView) -> MessageView {
    MessageView {
        id,
        task_id: shim.task_id,
        request_id: shim.request_id,
        server_message_data: seq![],
        message: Some(content),
    }
}

/// The content that a chunk of streamed text stands for.
pub open spec fn text_content(kind: StreamingKind, text: Seq<char>) -> ContentView {
    match kind {
        StreamingKind::Text => ContentView::AgentOutput { text },
        StreamingKind::Reasoning => ContentView::AgentReasoning { reasoning: text },
    }
}

/// The content that displays a tool call.
pub open spec fn tool_content(tool_call_id: Seq<char>, payload: Seq<char>) -> ContentView {
    ContentView::ToolCall { tool_call_id, tool: ToolView::Server { payload } }
}

/// The path that a chunk of streamed text is appended to.
pub open spec fn mask_path(kind: StreamingKind) -> Seq<char> {
    match kind {
        StreamingKind::Text => AGENT_OUTPUT_TEXT_MASK@,
        StreamingKind::Reasoning => AGENT_REASONING_MASK@,
    }
}

/// The kind and the text of an update that streams text.
pub open spec fn streamed(update: SessionUpdate) -> Option<(StreamingKind, Seq<char>)> {
    match update {
        SessionUpdate::AgentMessageChunk(chunk) => match block_text(chunk.content) {
            Some(text) => Some((StreamingKind::Text, text)),
            None => None,
        },
        SessionUpdate::AgentThoughtChunk(chunk) => match block_text(chunk.content) {
            Some(text) => Some((StreamingKind::Reasoning, text)),
            None => None,
        },
        _ => None,
    }
}

/// The id of the message that a chunk of `kind` continues, if it continues one.
pub open spec fn continued(shim: ShimView, kind: StreamingKind) -> Option<Seq<char>> {
    match shim.target {
        Some((current, id)) if current == kind => Some(id),
        _ => None,
    }
}

/// Whether `update` starts a message of its own, which then needs a fresh id.
pub open spec fn starts_message(shim: ShimView, update: SessionUpdate) -> bool {
    match streamed(update) {
        Some((kind, _)) => continued(shim, kind) is None,
        None => false,
    }
}

/// The action for a chunk of streamed text.
pub open spec fn text_action(
    shim: ShimView,
    kind: StreamingKind,
    text: Seq<char>,
    fresh_id: Seq<char>,
) -> ActionView {
    match continued(shim, kind) {
        Some(id) => ActionView::AppendToMessageContent {
            task_id: shim.task_id,
            message: turn_message(shim, id, text_content(kind, text)),
            mask: seq![mask_path(kind)],
        },
        None => ActionView::AddMessagesToTask {
            task_id: shim.task_id,
            messages: seq![turn_message(shim, fresh_id, text_content(kind, text))],
        },
    }
}

/// The action for `update`, if it has one; `fresh_id` is the id of a message that it starts.
pub open spec fn update_action(
    shim: ShimView,
    update: SessionUpdate,
    fresh_id: Seq<char>,
) -> Option<ActionView> {
    match update {
        SessionUpdate::ToolCall(tool_call) => {
            let id = tool_call.tool_call_id@;
            Some(
                ActionView::AddMessagesToTask {
                    task_id: shim.task_id,
                    messages: seq![
                        turn_message(
                            shim,
                            id,
                            tool_content(id, payload_text(tool_call_json(tool_call@))),
                        ),
                    ],
                },
            )
        },
        SessionUpdate::ToolCallUpdate(update) => {
            let id = update.tool_call_id@;
            Some(
                ActionView::UpdateTaskMessage {
                    task_id: shim.task_id,
                    message: turn_message(
                        shim,
                        id,
                        tool_content(id, payload_text(tool_call_update_json(update@))),
                    ),
                    mask: seq![TOOL_CALL_MASK@],
                },
            )
        },
        _ => match streamed(update) {
            Some((kind, text)) => Some(text_action(shim, kind, text, fresh_id)),
            None => None,
        },
    }
}

/// The event for `update`: its action, alone.
pub open spec fn update_event(
    shim: ShimView,
    update: SessionUpdate,
    fresh_id: Seq<char>,
) -> Option<EventView> {
    match update_action(shim, update, fresh_id) {
        Some(action) => Some(EventView::ClientActions { actions: seq![action] }),
        None => None,
    }
}

/// The shim after `update`: a chunk that starts a message makes it the target,
/// and a tool call ends the message that was streaming.
pub open spec fn shim_after(shim: ShimView, update: SessionUpdate, fresh_id: Seq<char>) -> ShimView {
    match update {
        SessionUpdate::ToolCall(_) => ShimView { target: None, ..shim },
        _ => match streamed(update) {
            Some((kind, _)) if continued(shim, kind) is None => ShimView {
                target: Some((kind, fresh_id)),
                ..shim
            },
            _ => shim,
        },
    }
}

/// What an optional event says.
pub open spec fn event_view(event: Option<ResponseEvent>) -> Option<EventView> {
    match event {
        Some(event) => Some(event@),
        None => None,
    }
}

/// How the end of a prompt turn is reported.
pub open spec fn finish_reason(stop_reason: StopReason) -> FinishReason {
    match stop_reason {
        StopReason::MaxTokens => FinishReason::MaxTokenLimit,
        StopReason::Refusal => FinishReason::Other,
        _ => FinishReason::Done,
    }
}

fn one_path(path: &str) -> (mask: FieldMask)
    ensures
        mask@ == seq![path@],
{
    let mut paths: Vec<String> = Vec::new();
    paths.push(path.to_owned());
    let mask = FieldMask { paths };
    assert(mask@ =~= seq![path@]);
    mask
}

fn turn_message_of(
    task_id: &str,
    request_id: &str,
    message_id: &str,
    content: MessageContent,
) -> (message: Message)
    ensures
        message@ == (MessageView {
            id: message_id@,
            task_id: task_id@,
            request_id: request_id@,
            server_message_data: seq![],
            message: Some(content@),
        }),
{
    Message {
        id: message_id.to_owned(),
        task_id: task_id.to_owned(),
        request_id: request_id.to_owned(),
        server_message_data: String::new(),
        message: Some(content),
    }
}

fn streaming_text_message(
    task_id: &str,
    request_id: &str,
    message_id: &str,
    text: &str,
    kind: StreamingKind,
) -> (message: Message)
    ensures
        message@ == (MessageView {
            id: message_id@,
            task_id: task_id@,
            request_id: request_id@,
            server_message_data: seq![],
            message: Some(text_content(kind, text@)),
        }),
{
    let content = match kind {
        StreamingKind::Text => MessageContent::AgentOutput { text: text.to_owned() },
        StreamingKind::Reasoning => MessageContent::AgentReasoning { reasoning: text.to_owned() },
    };
    turn_message_of(task_id, request_id, message_id, content)
}

/// Tool calls are executed by the agent, not the client, so the message shows a
/// [`Tool::Server`] tool with the call as its opaque payload.
fn tool_call_message(
    task_id: &str,
    request_id: &str,
    message_id: &str,
    payload: String,
) -> (message: Message)
    ensures
        message@ == (MessageView {
            id: message_id@,
            task_id: task_id@,
            request_id: request_id@,
            server_message_data: seq![],
            message: Some(tool_content(message_id@, payload@)),
        }),
{
    turn_message_of(
        task_id,
        request_id,
        message_id,
        MessageContent::ToolCall {
            tool_call_id: message_id.to_owned(),
            tool: Tool::Server { payload },
        },
    )
}

fn add_message_action(task_id: &str, message: Message) -> (action: ClientAction)
    ensures
        action@ == (ActionView::AddMessagesToTask { task_id: task_id@, messages: seq![message@] }),
{
    let mut messages: Vec<Message> = Vec::new();
    messages.push(message);
    assert(messages@.map_values(|m: Message| m@) =~= seq![message@]);
    ClientAction::AddMessagesToTask { task_id: task_id.to_owned(), messages }
}

impl AcpProtoShim {
    pub fn new(task_id: String, request_id: String) -> (shim: AcpProtoShim)
        ensures
            shim@ == (ShimView { task_id: task_id@, request_id: request_id@, target: None }),
    {
        AcpProtoShim { task_id, request_id, target: StreamingTarget::Idle }
    }

    /// The event that must open the stream.
    pub fn stream_init(&self, conversation_id: String) -> (event: ResponseEvent)
        ensures
            event@ == (EventView::Init {
                conversation_id: conversation_id@,
                request_id: self@.request_id,
                run_id: seq![],
            }),
    {
        ResponseEvent::Init {
            conversation_id,
            request_id: self.request_id.clone(),
            run_id: String::new(),
        }
    }

    /// The event that must close the stream.
    pub fn stream_finished(&self, stop_reason: StopReason) -> (event: ResponseEvent)
        ensures
            event@ == (EventView::Finished { reason: finish_reason(stop_reason) }),
    {
        let reason = match stop_reason {
            StopReason::EndTurn => FinishReason::Done,
            StopReason::MaxTurnRequests => FinishReason::Done,
            StopReason::Cancelled => FinishReason::Done,
            StopReason::MaxTokens => FinishReason::MaxTokenLimit,
            StopReason::Refusal => FinishReason::Other,
            StopReason::Other => FinishReason::Done,
        };
        ResponseEvent::Finished { reason }
    }

    /// The id of the message that a chunk of `kind` continues, if it continues one.
    fn continuing_message_id(&self, kind: StreamingKind) -> (id: Option<String>)
        ensures
            match id {
                Some(id) => continued(self@, kind) == Some(id@),
                None => continued(self@, kind) is None,
            },
    {
        match (&self.target, kind) {
            (StreamingTarget::Text { message_id }, StreamingKind::Text) => Some(message_id.clone()),
            (StreamingTarget::Reasoning { message_id }, StreamingKind::Reasoning) => {
                Some(message_id.clone())
            },
            _ => None,
        }
    }

    /// First chunk of a message creates it, under `fresh_id`; subsequent chunks
    /// append via field mask. Switching between text and reasoning starts a new
    /// message.
    fn append_streaming_text(
        &mut self,
        text: &str,
        kind: StreamingKind,
        fresh_id: String,
    ) -> (action: ClientAction)
        ensures
            action@ == text_action(old(self)@, kind, text@, fresh_id@),
            final(self)@ == (ShimView {
                target: if continued(old(self)@, kind) is None {
                    Some((kind, fresh_id@))
                } else {
                    old(self)@.target
                },
                ..old(self)@
            }),
    {
        match self.continuing_message_id(kind) {
            Some(message_id) => {
                let path = match kind {
                    StreamingKind::Text => AGENT_OUTPUT_TEXT_MASK,
                    StreamingKind::Reasoning => AGENT_REASONING_MASK,
                };
                ClientAction::AppendToMessageContent {
                    task_id: self.task_id.clone(),
                    message: streaming_text_message(
                        self.task_id.as_str(),
                        self.request_id.as_str(),
                        message_id.as_str(),
                        text,
                        kind,
                    ),
                    mask: one_path(path),
                }
            },
            None => {
                let message = streaming_text_message(
                    self.task_id.as_str(),
                    self.request_id.as_str(),
                    fresh_id.as_str(),
                    text,
                    kind,
                );
                self.target = match kind {
                    StreamingKind::Text => StreamingTarget::Text { message_id: fresh_id },
                    StreamingKind::Reasoning => StreamingTarget::Reasoning { message_id: fresh_id },
                };
                add_message_action(self.task_id.as_str(), message)
            },
        }
    }

    /// Whether `update` starts a message of its own, which then needs a fresh id.
    pub fn needs_fresh_id(&self, update: &SessionUpdate) -> (needed: bool)
        ensures
            needed == starts_message(self@, *update),
    {
        match update {
            SessionUpdate::AgentMessageChunk(chunk) => content_block_text(&chunk.content).is_some()
                && self.continuing_message_id(StreamingKind::Text).is_none(),
            SessionUpdate::AgentThoughtChunk(chunk) => content_block_text(&chunk.content).is_some()
                && self.continuing_message_id(StreamingKind::Reasoning).is_none(),
            _ => false,
        }
    }

    /// Translates one session update into an event, if it has a native
    /// representation. A message that the update starts gets the id `fresh_id`.
    pub fn map_update_with_id(&mut self, update: SessionUpdate, fresh_id: String) -> (event: Option<
        ResponseEvent,
    >)
        ensures
            event_view(event) == update_event(old(self)@, update, fresh_id@),
            final(self)@ == shim_after(old(self)@, update, fresh_id@),
    {
        let action = match update {
            SessionUpdate::AgentMessageChunk(chunk) => {
                let Some(text) = content_block_text(&chunk.content) else {
                    return None;
                };
                self.append_streaming_text(text, StreamingKind::Text, fresh_id)
            },
            SessionUpdate::AgentThoughtChunk(chunk) => {
                let Some(text) = content_block_text(&chunk.content) else {
                    return None;
                };
                self.append_streaming_text(text, StreamingKind::Reasoning, fresh_id)
            },
            SessionUpdate::ToolCall(tool_call) => {
                self.target = StreamingTarget::Idle;
                add_message_action(
                    self.task_id.as_str(),
                    tool_call_message(
                        self.task_id.as_str(),
                        self.request_id.as_str(),
                        tool_call.tool_call_id.as_str(),
                        tool_call_payload(&tool_call),
                    ),
                )
            },
            SessionUpdate::ToolCallUpdate(update) => {
                // Tool call messages are keyed by the tool call id, so an update
                // replaces the payload in place via field mask.
                let payload = payload_or_empty(encode_tool_call_update(&update));
                ClientAction::UpdateTaskMessage {
                    task_id: self.task_id.clone(),
                    message: tool_call_message(
                        self.task_id.as_str(),
                        self.request_id.as_str(),
                        update.tool_call_id.as_str(),
                        payload,
                    ),
                    mask: one_path(TOOL_CALL_MASK),
                }
            },
            // Plans, mode, config, info and usage updates and user echoes have no
            // native representation.
            _ => {
                return None;
            },
        };
        let mut actions: Vec<ClientAction> = Vec::new();
        actions.push(action);
        assert(actions@.map_values(|a: ClientAction| a@) =~= seq![action@]);
        Some(ResponseEvent::ClientActions { actions })
    }

    /// Translates one session update into an event, if it has a native
    /// representation. A message that the update starts gets a random id.
    pub fn map_update(&mut self, update: SessionUpdate) -> (event: Option<ResponseEvent>)
        ensures
            exists|fresh_id: Seq<char>|
                {
                    &&& starts_message(old(self)@, update) ==> is_version_4_text(fresh_id)
                    &&& event_view(event) == #[trigger] update_event(
                        old(self)@,
                        update,
                        fresh_id,
                    )
                    &&& final(self)@ == shim_after(old(self)@, update, fresh_id)
                },
    {
        let fresh_id = if self.needs_fresh_id(&update) {
            random_uuid_text()
        } else {
            String::new()
        };
        self.map_update_with_id(update, fresh_id)
    }
}

/// The shim after all of `updates`, where the one at position `i` may use the id `ids[i]`.
pub open spec fn shim_after_all(
    shim: ShimView,
    updates: Seq<SessionUpdate>,
    ids: Seq<Seq<char>>,
) -> ShimView
    decreases updates.len(),
{
    if updates.len() == 0 {
        shim
    } else {
        shim_after(
            shim_after_all(shim, updates.drop_last(), ids),
            updates.last(),
            ids[updates.len() - 1],
        )
    }
}

/// The messages that an action carries.
pub open spec fn carried_messages(action: ActionView) -> Seq<MessageView> {
    match action {
        ActionView::AddMessagesToTask { messages, .. } => messages,
        ActionView::AppendToMessageContent { message, .. } => seq![message],
        ActionView::UpdateTaskMessage { message, .. } => seq![message],
    }
}

/// The task that an action changes.
pub open spec fn changed_task(action: ActionView) -> Seq<char> {
    match action {
        ActionView::AddMessagesToTask { task_id, .. } => task_id,
        ActionView::AppendToMessageContent { task_id, .. } => task_id,
        ActionView::UpdateTaskMessage { task_id, .. } => task_id,
    }
}

/// An uninterrupted run of chunks of one kind is one message: the first chunk
/// adds it, every later chunk appends to it, under the id of the first.
pub proof fn law_a_run_of_chunks_is_one_message(
    shim: ShimView,
    kind: StreamingKind,
    updates: Seq<SessionUpdate>,
    texts: Seq<Seq<char>>,
    ids: Seq<Seq<char>>,
    at: int,
)
    requires
        continued(shim, kind) is None,
        updates.len() == texts.len(),
        forall|i: int|
            0 <= i < updates.len() ==> streamed(#[trigger] updates[i]) == Some((kind, texts[i])),
        0 <= at < updates.len(),
    ensures
        update_action(shim_after_all(shim, updates.take(at), ids), updates[at], ids[at]) == Some(
            if at == 0 {
                ActionView::AddMessagesToTask {
                    task_id: shim.task_id,
                    messages: seq![turn_message(shim, ids[0], text_content(kind, texts[0]))],
                }
            } else {
                ActionView::AppendToMessageContent {
                    task_id: shim.task_id,
                    message: turn_message(shim, ids[0], text_content(kind, texts[at])),
                    mask: seq![mask_path(kind)],
                }
            },
        ),
{
    lemma_run_target(shim, kind, updates, texts, ids, at);
    assert(streamed(updates[at]) == Some((kind, texts[at])));
}

proof fn lemma_run_target(
    shim: ShimView,
    kind: StreamingKind,
    updates: Seq<SessionUpdate>,
    texts: Seq<Seq<char>>,
    ids: Seq<Seq<char>>,
    n: int,
)
    requires
        continued(shim, kind) is None,
        updates.len() == texts.len(),
        forall|i: int|
            0 <= i < updates.len() ==> streamed(#[trigger] updates[i]) == Some((kind, texts[i])),
        0 <= n <= updates.len(),
    ensures
        shim_after_all(shim, updates.take(n), ids) == (ShimView {
            target: if n == 0 {
                shim.target
            } else {
                Some((kind, ids[0]))
            },
            ..shim
        }),
    decreases n,
{
    if n > 0 {
        lemma_run_target(shim, kind, updates, texts, ids, n - 1);
        assert(updates.take(n).drop_last() =~= updates.take(n - 1));
        assert(streamed(updates[n - 1]) == Some((kind, texts[n - 1])));
    }
}

/// Texts one after the other.
pub open spec fn whole_text(texts: Seq<Seq<char>>) -> Seq<char>
    decreases texts.len(),
{
    if texts.len() == 0 {
        seq![]
    } else {
        whole_text(texts.drop_last()) + texts.last()
    }
}

/// The content of a stored message after more of it was appended.
pub open spec fn appended_content(
    stored: Option<ContentView>,
    more: Option<ContentView>,
) -> Option<ContentView> {
    match (stored, more) {
        (
            Some(ContentView::AgentOutput { text: before }),
            Some(ContentView::AgentOutput { text }),
        ) => Some(ContentView::AgentOutput { text: before + text }),
        (
            Some(ContentView::AgentReasoning { reasoning: before }),
            Some(ContentView::AgentReasoning { reasoning }),
        ) => Some(ContentView::AgentReasoning { reasoning: before + reasoning }),
        _ => stored,
    }
}

/// The messages of the task after an action.
pub open spec fn stored_after(stored: Seq<MessageView>, action: ActionView) -> Seq<MessageView> {
    match action {
        ActionView::AddMessagesToTask { messages, .. } => stored + messages,
        ActionView::AppendToMessageContent { message, .. } => stored.map_values(
            |m: MessageView|
                if m.id == message.id {
                    MessageView { message: appended_content(m.message, message.message), ..m }
                } else {
                    m
                },
        ),
        ActionView::UpdateTaskMessage { message, .. } => stored.map_values(
            |m: MessageView|
                if m.id == message.id {
                    MessageView { message: message.message, ..m }
                } else {
                    m
                },
        ),
    }
}

/// The messages of the task after all of `updates`.
pub open spec fn stored_after_all(
    stored: Seq<MessageView>,
    shim: ShimView,
    updates: Seq<SessionUpdate>,
    ids: Seq<Seq<char>>,
) -> Seq<MessageView>
    decreases updates.len(),
{
    if updates.len() == 0 {
        stored
    } else {
        let before = stored_after_all(stored, shim, updates.drop_last(), ids);
        match update_action(
            shim_after_all(shim, updates.drop_last(), ids),
            updates.last(),
            ids[updates.len() - 1],
        ) {
            Some(action) => stored_after(before, action),
            None => before,
        }
    }
}

/// A run of chunks of one kind leaves one new message in the task, and it holds
/// the texts of all the chunks, in order.
pub proof fn law_a_run_of_chunks_arrives_whole(
    stored: Seq<MessageView>,
    shim: ShimView,
    kind: StreamingKind,
    updates: Seq<SessionUpdate>,
    texts: Seq<Seq<char>>,
    ids: Seq<Seq<char>>,
)
    requires
        continued(shim, kind) is None,
        updates.len() > 0,
        updates.len() == texts.len(),
        forall|i: int|
            0 <= i < updates.len() ==> streamed(#[trigger] updates[i]) == Some((kind, texts[i])),
        forall|i: int| 0 <= i < stored.len() ==> (#[trigger] stored[i]).id != ids[0],
    ensures
        stored_after_all(stored, shim, updates, ids) == stored.push(
            turn_message(shim, ids[0], text_content(kind, whole_text(texts))),
        ),
    decreases updates.len(),
{
    let last = updates.len() - 1;
    let before = updates.drop_last();
    law_a_run_of_chunks_is_one_message(shim, kind, updates, texts, ids, last);
    assert(updates.take(last) =~= before);
    let after = stored_after_all(stored, shim, updates, ids);
    if last == 0 {
        assert(stored_after_all(stored, shim, before, ids) == stored);
        assert(whole_text(texts.drop_last()) =~= seq![]);
        assert(whole_text(texts) =~= texts[0]);
        assert(after =~= stored.push(
            turn_message(shim, ids[0], text_content(kind, whole_text(texts))),
        ));
    } else {
        assert forall|i: int| 0 <= i < before.len() implies streamed(#[trigger] before[i]) == Some(
            (kind, texts.drop_last()[i]),
        ) by {
            assert(before[i] == updates[i]);
        }
        law_a_run_of_chunks_arrives_whole(stored, shim, kind, before, texts.drop_last(), ids);
        assert(after =~= stored.push(
            turn_message(shim, ids[0], text_content(kind, whole_text(texts))),
        ));
    }
}

/// The text that a message holds as `kind`: none where it is something else.
pub open spec fn text_as(kind: StreamingKind, message: MessageView) -> Option<Seq<char>> {
    match (kind, message.message) {
        (StreamingKind::Text, Some(ContentView::AgentOutput { text })) => Some(text),
        (StreamingKind::Reasoning, Some(ContentView::AgentReasoning { reasoning })) => Some(
            reasoning,
        ),
        _ => None,
    }
}

/// An optional text, nothing where there is none.
pub open spec fn text_or_nothing(text: Option<Seq<char>>) -> Seq<char> {
    match text {
        Some(text) => text,
        None => seq![],
    }
}

/// The texts of all messages of `kind`, one after the other.
pub open spec fn stored_text(kind: StreamingKind, messages: Seq<MessageView>) -> Seq<char>
    decreases messages.len(),
{
    if messages.len() == 0 {
        seq![]
    } else {
        stored_text(kind, messages.drop_last()) + text_or_nothing(text_as(kind, messages.last()))
    }
}

/// The text that an update streams as `kind`.
pub open spec fn streamed_as(kind: StreamingKind, update: SessionUpdate) -> Option<Seq<char>> {
    match streamed(update) {
        Some((of, text)) if of == kind => Some(text),
        _ => None,
    }
}

/// The texts of all chunks of `kind`, one after the other.
pub open spec fn streamed_text(kind: StreamingKind, updates: Seq<SessionUpdate>) -> Seq<char>
    decreases updates.len(),
{
    if updates.len() == 0 {
        seq![]
    } else {
        streamed_text(kind, updates.drop_last()) + text_or_nothing(
            streamed_as(kind, updates.last()),
        )
    }
}

/// The id of the tool call that an update is about.
pub open spec fn tool_id(update: SessionUpdate) -> Option<Seq<char>> {
    match update {
        SessionUpdate::ToolCall(tool_call) => Some(tool_call.tool_call_id@),
        SessionUpdate::ToolCallUpdate(update) => Some(update.tool_call_id@),
        _ => None,
    }
}

/// Whether the fresh ids for `updates` are distinct, and distinct from the ids of
/// all tool calls.
pub open spec fn ids_are_fresh(updates: Seq<SessionUpdate>, ids: Seq<Seq<char>>) -> bool {
    &&& forall|i: int, j: int|
        0 <= i < j < updates.len() ==> #[trigger] ids[i] != #[trigger] ids[j]
    &&& forall|i: int, j: int|
        0 <= i < updates.len() && 0 <= j < updates.len() ==> tool_id(#[trigger] updates[j]) != Some(
            #[trigger] ids[i],
        )
}

/// Whether a message holds streamed text.
pub open spec fn is_streamed_message(message: MessageView) -> bool {
    text_as(StreamingKind::Text, message) is Some || text_as(StreamingKind::Reasoning, message) is Some
}

/// Whether the shim's target is the last of `messages`, and no other of them has
/// its id.
pub open spec fn target_is_last(shim: ShimView, messages: Seq<MessageView>) -> bool {
    shim.target matches Some((kind, id)) ==> {
        &&& messages.len() > 0
        &&& messages.last().id == id
        &&& text_as(kind, messages.last()) is Some
        &&& forall|i: int| 0 <= i < messages.len() - 1 ==> (#[trigger] messages[i]).id != id
    }
}

proof fn lemma_same_stored_text(
    kind: StreamingKind,
    messages: Seq<MessageView>,
    others: Seq<MessageView>,
)
    requires
        messages.len() == others.len(),
        forall|i: int|
            0 <= i < messages.len() ==> text_as(kind, #[trigger] messages[i]) == text_as(
                kind,
                others[i],
            ),
    ensures
        stored_text(kind, messages) == stored_text(kind, others),
    decreases messages.len(),
{
    if messages.len() > 0 {
        let last = messages.len() - 1;
        assert(text_as(kind, messages[last]) == text_as(kind, others[last]));
        assert forall|i: int| 0 <= i < last implies text_as(
            kind,
            #[trigger] messages.drop_last()[i],
        ) == text_as(kind, others.drop_last()[i]) by {
            assert(messages.drop_last()[i] == messages[i]);
            assert(others.drop_last()[i] == others[i]);
        }
        lemma_same_stored_text(kind, messages.drop_last(), others.drop_last());
    }
}

/// What holds of the task and the shim after any updates of a turn that began
/// with an empty task.
proof fn lemma_streaming(
    shim: ShimView,
    updates: Seq<SessionUpdate>,
    ids: Seq<Seq<char>>,
    n: int,
)
    requires
        shim.target is None,
        ids_are_fresh(updates, ids),
        0 <= n <= updates.len(),
    ensures
        ({
            let stored = stored_after_all(seq![], shim, updates.take(n), ids);
            let now = shim_after_all(shim, updates.take(n), ids);
            &&& target_is_last(now, stored)
            &&& forall|i: int, j: int|
                0 <= i < stored.len() && n <= j < updates.len() ==> (#[trigger] stored[i]).id
                    != #[trigger] ids[j]
            &&& forall|i: int, j: int|
                0 <= i < stored.len() && 0 <= j < updates.len() && is_streamed_message(
                    #[trigger] stored[i],
                ) ==> tool_id(#[trigger] updates[j]) != Some(stored[i].id)
            &&& forall|kind: StreamingKind| #[trigger]
                stored_text(kind, stored) == streamed_text(kind, updates.take(n))
        }),
    decreases n,
{
    if n > 0 {
        let m = n - 1;
        lemma_streaming(shim, updates, ids, m);
        assert(updates.take(n).drop_last() =~= updates.take(m));
        let before = stored_after_all(seq![], shim, updates.take(m), ids);
        let old_shim = shim_after_all(shim, updates.take(m), ids);
        let stored = stored_after_all(seq![], shim, updates.take(n), ids);
        let now = shim_after_all(shim, updates.take(n), ids);
        let update = updates[m];
        assert(updates.take(n).last() == update);
        match streamed(update) {
            Some((kind, text)) => {
                if continued(old_shim, kind) is Some {
                    let grown = before.len() - 1;
                    assert forall|i: int| 0 <= i < grown implies stored[i] == before[i] by {}
                    assert(text_as(kind, stored[grown]) == Some(
                        text_as(kind, before[grown])->0 + text,
                    ));
                    assert forall|any: StreamingKind| #[trigger]
                        stored_text(any, stored) == streamed_text(any, updates.take(n)) by {
                        assert(stored.drop_last() =~= before.drop_last());
                        assert(stored_text(any, before) == streamed_text(any, updates.take(m)));
                        if any == kind {
                            assert(stored_text(any, stored) =~= stored_text(any, before) + text);
                        } else {
                            assert(text_as(any, stored.last()) is None);
                            assert(text_as(any, before.last()) is None);
                            assert(streamed_text(any, updates.take(n)) =~= streamed_text(
                                any,
                                updates.take(m),
                            ));
                        }
                    }
                } else {
                    let added = turn_message(old_shim, ids[m], text_content(kind, text));
                    assert(stored =~= before.push(added));
                    assert forall|any: StreamingKind| #[trigger]
                        stored_text(any, stored) == streamed_text(any, updates.take(n)) by {
                        assert(stored.drop_last() =~= before);
                        assert(stored_text(any, before) == streamed_text(any, updates.take(m)));
                    }
                }
            },
            None => {
                assert forall|any: StreamingKind| #[trigger]
                    streamed_text(any, updates.take(n)) == streamed_text(any, updates.take(m)) by {
                    assert(streamed_text(any, updates.take(n)) =~= streamed_text(
                        any,
                        updates.take(m),
                    ));
                }
                match update {
                    SessionUpdate::ToolCall(tool_call) => {
                        assert(stored.drop_last() =~= before);
                        assert forall|any: StreamingKind| #[trigger]
                            stored_text(any, stored) == streamed_text(any, updates.take(n)) by {
                            assert(text_as(any, stored.last()) is None);
                            assert(stored_text(any, stored) =~= stored_text(any, before));
                        }
                    },
                    SessionUpdate::ToolCallUpdate(change) => {
                        assert(tool_id(updates[m]) == Some(change.tool_call_id@));
                        assert forall|any: StreamingKind| #[trigger]
                            stored_text(any, stored) == streamed_text(any, updates.take(n)) by {
                            assert forall|i: int| 0 <= i < before.len() implies text_as(
                                any,
                                #[trigger] before[i],
                            ) == text_as(any, stored[i]) by {}
                            lemma_same_stored_text(any, before, stored);
                        }
                    },
                    _ => {},
                }
            },
        }
    }
}

/// Streamed text arrives whole, whatever updates a turn has, as long as its
/// fresh ids are distinct and no tool call has one of them: the messages of
/// agent text, one after the other, hold the texts of all message chunks, and the
/// messages of reasoning those of all thought chunks, in order.
pub proof fn law_streamed_text_arrives_whole(
    shim: ShimView,
    kind: StreamingKind,
    updates: Seq<SessionUpdate>,
    ids: Seq<Seq<char>>,
)
    requires
        shim.target is None,
        ids_are_fresh(updates, ids),
    ensures
        stored_text(kind, stored_after_all(seq![], shim, updates, ids)) == streamed_text(
            kind,
            updates,
        ),
{
    lemma_streaming(shim, updates, ids, updates.len() as int);
    assert(updates.take(updates.len() as int) =~= updates);
}

/// Every append names the message that was added last, and that message is of
/// its own kind; no other message has its id.
pub proof fn law_appends_name_the_latest_message(
    shim: ShimView,
    updates: Seq<SessionUpdate>,
    ids: Seq<Seq<char>>,
    at: int,
)
    requires
        shim.target is None,
        ids_are_fresh(updates, ids),
        0 <= at < updates.len(),
    ensures
        ({
            let stored = stored_after_all(seq![], shim, updates.take(at), ids);
            let now = shim_after_all(shim, updates.take(at), ids);
            update_action(now, updates[at], ids[at]) matches Some(
                ActionView::AppendToMessageContent { message, .. },
            ) ==> {
                &&& stored.len() > 0
                &&& stored.last().id == message.id
                &&& streamed(updates[at]) is Some
                &&& text_as((streamed(updates[at])->0).0, stored.last()) is Some
                &&& text_as((streamed(updates[at])->0).0, message) == Some(
                    (streamed(updates[at])->0).1,
                )
                &&& forall|i: int|
                    0 <= i < stored.len() - 1 ==> (#[trigger] stored[i]).id != message.id
            }
        }),
{
    lemma_streaming(shim, updates, ids, at);
}

/// A chunk of one kind right after a chunk of the other kind starts a new message.
pub proof fn law_switching_kinds_starts_a_message(
    shim: ShimView,
    first: SessionUpdate,
    second: SessionUpdate,
    first_id: Seq<char>,
    second_id: Seq<char>,
)
    requires
        streamed(first) is Some,
        streamed(second) is Some,
        (streamed(first)->0).0 != (streamed(second)->0).0,
    ensures
        ({
            let between = shim_after(shim, first, first_id);
            let (kind, text) = streamed(second)->0;
            &&& starts_message(between, second)
            &&& update_action(between, second, second_id) == Some(
                ActionView::AddMessagesToTask {
                    task_id: shim.task_id,
                    messages: seq![turn_message(shim, second_id, text_content(kind, text))],
                },
            )
        }),
{
}

/// Text right after a tool call starts a new message; it is never appended to
/// what was streamed before the call.
pub proof fn law_a_tool_call_splits_the_text(
    shim: ShimView,
    tool_call: ToolCall,
    chunk: SessionUpdate,
    fresh_id: Seq<char>,
    call_id: Seq<char>,
)
    requires
        streamed(chunk) is Some,
    ensures
        ({
            let between = shim_after(shim, SessionUpdate::ToolCall(tool_call), call_id);
            let (kind, text) = streamed(chunk)->0;
            &&& starts_message(between, chunk)
            &&& update_action(between, chunk, fresh_id) == Some(
                ActionView::AddMessagesToTask {
                    task_id: shim.task_id,
                    messages: seq![turn_message(shim, fresh_id, text_content(kind, text))],
                },
            )
        }),
{
}

/// An update of a tool call touches the same message that the call added, and
/// leaves the message that is streaming as it is.
pub proof fn law_a_tool_call_update_finds_its_call(
    before: ShimView,
    tool_call: ToolCall,
    later: ShimView,
    update: ToolCallUpdate,
    call_id: Seq<char>,
    update_id: Seq<char>,
)
    requires
        tool_call.tool_call_id@ == update.tool_call_id@,
    ensures
        ({
            let added = carried_messages(
                update_action(before, SessionUpdate::ToolCall(tool_call), call_id)->0,
            );
            let changed = carried_messages(
                update_action(later, SessionUpdate::ToolCallUpdate(update), update_id)->0,
            );
            &&& added.len() == 1
            &&& changed.len() == 1
            &&& added[0].id == changed[0].id
            &&& shim_after(later, SessionUpdate::ToolCallUpdate(update), update_id) == later
        }),
{
}

/// The client is never asked to run a tool: every tool that an event shows is a
/// [`Tool::Server`] tool.
pub proof fn law_tools_are_display_only(shim: ShimView, update: SessionUpdate, fresh_id: Seq<char>)
    ensures
        update_action(shim, update, fresh_id) matches Some(action) ==> forall|i: int|
            #![trigger carried_messages(action)[i]]
            0 <= i < carried_messages(action).len() && (carried_messages(action)[i].message matches Some(
                ContentView::ToolCall { .. },
            )) ==> carried_messages(action)[i].message->0->tool is Server,
{
}

/// Every message of a turn carries the ids of the turn, and the shim keeps them.
pub proof fn law_messages_belong_to_the_turn(
    shim: ShimView,
    update: SessionUpdate,
    fresh_id: Seq<char>,
)
    ensures
        update_action(shim, update, fresh_id) matches Some(action) ==> {
            &&& changed_task(action) == shim.task_id
            &&& carried_messages(action).len() == 1
            &&& carried_messages(action)[0].task_id == shim.task_id
            &&& carried_messages(action)[0].request_id == shim.request_id
        },
        shim_after(shim, update, fresh_id).task_id == shim.task_id,
        shim_after(shim, update, fresh_id).request_id == shim.request_id,
{
}

/// An update that starts no message does not depend on the fresh id.
pub proof fn law_fresh_ids_are_for_new_messages(
    shim: ShimView,
    update: SessionUpdate,
    one_id: Seq<char>,
    other_id: Seq<char>,
)
    requires
        !starts_message(shim, update),
    ensures
        update_event(shim, update, one_id) == update_event(shim, update, other_id),
        shim_after(shim, update, one_id) == shim_after(shim, update, other_id),
{
}

/// An update without a native representation leaves the shim as it is.
pub proof fn law_unmapped_updates_change_nothing(
    shim: ShimView,
    update: SessionUpdate,
    fresh_id: Seq<char>,
)
    requires
        update_event(shim, update, fresh_id) is None,
    ensures
        shim_after(shim, update, fresh_id) == shim,
{
}

/// Every text of the agent, whatever it holds, is handed on exactly as it is: it
/// is appended to the message of agent text that is streaming, and otherwise
/// starts one under the fresh id. A link counts as the text of its target.
pub proof fn law_agent_text_is_streamed(
    shim: ShimView,
    text: String,
    id: Seq<char>,
    fresh_id: Seq<char>,
)
    ensures
        ({
            let chunk = SessionUpdate::AgentMessageChunk(
                ContentChunk { content: ChunkContent::Text { text } },
            );
            let link = SessionUpdate::AgentMessageChunk(
                ContentChunk { content: ChunkContent::ResourceLink { uri: text } },
            );
            let content = ContentView::AgentOutput { text: text@ };
            &&& shim.target == Some((StreamingKind::Text, id)) ==> {
                &&& !starts_message(shim, chunk)
                &&& update_event(shim, chunk, fresh_id) == Some(
                    EventView::ClientActions {
                        actions: seq![
                            ActionView::AppendToMessageContent {
                                task_id: shim.task_id,
                                message: MessageView {
                                    id,
                                    task_id: shim.task_id,
                                    request_id: shim.request_id,
                                    server_message_data: seq![],
                                    message: Some(content),
                                },
                                mask: seq!["message.agent_output.text"@],
                            },
                        ],
                    },
                )
                &&& shim_after(shim, chunk, fresh_id) == shim
            }
            &&& shim.target is None || (shim.target->0).0 == StreamingKind::Reasoning ==> {
                &&& starts_message(shim, chunk)
                &&& update_event(shim, chunk, fresh_id) == Some(
                    EventView::ClientActions {
                        actions: seq![
                            ActionView::AddMessagesToTask {
                                task_id: shim.task_id,
                                messages: seq![
                                    MessageView {
                                        id: fresh_id,
                                        task_id: shim.task_id,
                                        request_id: shim.request_id,
                                        server_message_data: seq![],
                                        message: Some(content),
                                    },
                                ],
                            },
                        ],
                    },
                )
                &&& shim_after(shim, chunk, fresh_id) == (ShimView {
                    task_id: shim.task_id,
                    request_id: shim.request_id,
                    target: Some((StreamingKind::Text, fresh_id)),
                })
            }
            &&& starts_message(shim, link) == starts_message(shim, chunk)
            &&& update_event(shim, link, fresh_id) == update_event(shim, chunk, fresh_id)
            &&& shim_after(shim, link, fresh_id) == shim_after(shim, chunk, fresh_id)
        }),
{
}

/// Every thought of the agent, whatever it holds, is handed on exactly as it is:
/// it is appended to the reasoning that is streaming, and otherwise starts a
/// message of reasoning under the fresh id.
pub proof fn law_reasoning_is_streamed(
    shim: ShimView,
    text: String,
    id: Seq<char>,
    fresh_id: Seq<char>,
)
    ensures
        ({
            let chunk = SessionUpdate::AgentThoughtChunk(
                ContentChunk { content: ChunkContent::Text { text } },
            );
            let link = SessionUpdate::AgentThoughtChunk(
                ContentChunk { content: ChunkContent::ResourceLink { uri: text } },
            );
            let content = ContentView::AgentReasoning { reasoning: text@ };
            &&& shim.target == Some((StreamingKind::Reasoning, id)) ==> {
                &&& !starts_message(shim, chunk)
                &&& update_event(shim, chunk, fresh_id) == Some(
                    EventView::ClientActions {
                        actions: seq![
                            ActionView::AppendToMessageContent {
                                task_id: shim.task_id,
                                message: MessageView {
                                    id,
                                    task_id: shim.task_id,
                                    request_id: shim.request_id,
                                    server_message_data: seq![],
                                    message: Some(content),
                                },
                                mask: seq!["message.agent_reasoning.reasoning"@],
                            },
                        ],
                    },
                )
                &&& shim_after(shim, chunk, fresh_id) == shim
            }
            &&& shim.target is None || (shim.target->0).0 == StreamingKind::Text ==> {
                &&& starts_message(shim, chunk)
                &&& update_event(shim, chunk, fresh_id) == Some(
                    EventView::ClientActions {
                        actions: seq![
                            ActionView::AddMessagesToTask {
                                task_id: shim.task_id,
                                messages: seq![
                                    MessageView {
                                        id: fresh_id,
                                        task_id: shim.task_id,
                                        request_id: shim.request_id,
                                        server_message_data: seq![],
                                        message: Some(content),
                                    },
                                ],
                            },
                        ],
                    },
                )
                &&& shim_after(shim, chunk, fresh_id) == (ShimView {
                    task_id: shim.task_id,
                    request_id: shim.request_id,
                    target: Some((StreamingKind::Reasoning, fresh_id)),
                })
            }
            &&& starts_message(shim, link) == starts_message(shim, chunk)
            &&& update_event(shim, link, fresh_id) == update_event(shim, chunk, fresh_id)
            &&& shim_after(shim, link, fresh_id) == shim_after(shim, chunk, fresh_id)
        }),
{
}

/// Every tool call adds one message, which has the id of the call and shows it by
/// its JSON text, or by an empty text where it has none; the message that was
/// streaming ends.
pub proof fn law_tool_calls_become_messages(
    shim: ShimView,
    tool_call: ToolCall,
    fresh_id: Seq<char>,
    payload: Seq<char>,
)
    requires
        tool_call_json(tool_call@) == Some(payload) || (tool_call_json(tool_call@) is None
            && payload.len() == 0),
    ensures
        ({
            let update = SessionUpdate::ToolCall(tool_call);
            &&& !starts_message(shim, update)
            &&& update_event(shim, update, fresh_id) == Some(
                EventView::ClientActions {
                    actions: seq![
                        ActionView::AddMessagesToTask {
                            task_id: shim.task_id,
                            messages: seq![
                                MessageView {
                                    id: tool_call.tool_call_id@,
                                    task_id: shim.task_id,
                                    request_id: shim.request_id,
                                    server_message_data: seq![],
                                    message: Some(
                                        ContentView::ToolCall {
                                            tool_call_id: tool_call.tool_call_id@,
                                            tool: ToolView::Server { payload },
                                        },
                                    ),
                                },
                            ],
                        },
                    ],
                },
            )
            &&& shim_after(shim, update, fresh_id) == (ShimView {
                task_id: shim.task_id,
                request_id: shim.request_id,
                target: None,
            })
        }),
{
    assert(payload =~= payload_text(tool_call_json(tool_call@)));
}

/// Every tool call update replaces the tool call of the message with its id, by
/// its JSON text or by an empty text where it has none; what is streaming goes on.
pub proof fn law_tool_call_updates_replace_the_call(
    shim: ShimView,
    change: ToolCallUpdate,
    fresh_id: Seq<char>,
    payload: Seq<char>,
)
    requires
        tool_call_update_json(change@) == Some(payload) || (tool_call_update_json(change@) is None
            && payload.len() == 0),
    ensures
        ({
            let update = SessionUpdate::ToolCallUpdate(change);
            &&& !starts_message(shim, update)
            &&& update_event(shim, update, fresh_id) == Some(
                EventView::ClientActions {
                    actions: seq![
                        ActionView::UpdateTaskMessage {
                            task_id: shim.task_id,
                            message: MessageView {
                                id: change.tool_call_id@,
                                task_id: shim.task_id,
                                request_id: shim.request_id,
                                server_message_data: seq![],
                                message: Some(
                                    ContentView::ToolCall {
                                        tool_call_id: change.tool_call_id@,
                                        tool: ToolView::Server { payload },
                                    },
                                ),
                            },
                            mask: seq!["message.tool_call"@],
                        },
                    ],
                },
            )
            &&& shim_after(shim, update, fresh_id) == shim
        }),
{
    assert(payload =~= payload_text(tool_call_update_json(change@)));
}

/// The updates that have an event are the tool calls, their updates, and the
/// agent's texts and links; every other update has none and changes nothing.
pub proof fn law_which_updates_have_events(
    shim: ShimView,
    update: SessionUpdate,
    fresh_id: Seq<char>,
)
    ensures
        update_event(shim, update, fresh_id) is Some <==> match update {
            SessionUpdate::ToolCall(_) => true,
            SessionUpdate::ToolCallUpdate(_) => true,
            SessionUpdate::AgentMessageChunk(chunk) => chunk.content is Text
                || chunk.content is ResourceLink,
            SessionUpdate::AgentThoughtChunk(chunk) => chunk.content is Text
                || chunk.content is ResourceLink,
            _ => false,
        },
        update_event(shim, update, fresh_id) is None ==> shim_after(shim, update, fresh_id) == shim
            && !starts_message(shim, update),
{
}

/// What an update has the agent say as `kind`: the text of a text block, the
/// target of a link, and otherwise nothing.
pub open spec fn words_as(kind: StreamingKind, update: SessionUpdate) -> Seq<char> {
    let content = match (kind, update) {
        (StreamingKind::Text, SessionUpdate::AgentMessageChunk(chunk)) => chunk.content,
        (StreamingKind::Reasoning, SessionUpdate::AgentThoughtChunk(chunk)) => chunk.content,
        _ => ChunkContent::Other,
    };
    match content {
        ChunkContent::Text { text } => text@,
        ChunkContent::ResourceLink { uri } => uri@,
        _ => seq![],
    }
}

/// What updates have the agent say as `kind`, in order.
pub open spec fn all_words_as(kind: StreamingKind, updates: Seq<SessionUpdate>) -> Seq<char>
    decreases updates.len(),
{
    if updates.len() == 0 {
        seq![]
    } else {
        all_words_as(kind, updates.drop_last()) + words_as(kind, updates.last())
    }
}

proof fn lemma_all_words(kind: StreamingKind, updates: Seq<SessionUpdate>)
    ensures
        streamed_text(kind, updates) == all_words_as(kind, updates),
    decreases updates.len(),
{
    if updates.len() > 0 {
        lemma_all_words(kind, updates.drop_last());
    }
}

/// No word of the agent is lost, whatever updates a turn has, as long as its
/// fresh ids are distinct and no tool call has one of them: the messages of agent
/// text hold, one after the other, exactly the texts of the blocks that the agent
/// sent as its message, and the messages of reasoning those that it sent as its
/// thoughts.
pub proof fn law_every_word_is_stored(
    shim: ShimView,
    kind: StreamingKind,
    updates: Seq<SessionUpdate>,
    ids: Seq<Seq<char>>,
)
    requires
        shim.target is None,
        ids_are_fresh(updates, ids),
    ensures
        stored_text(kind, stored_after_all(seq![], shim, updates, ids)) == all_words_as(
            kind,
            updates,
        ),
{
    law_streamed_text_arrives_whole(shim, kind, updates, ids);
    lemma_all_words(kind, updates);
}

/// A turn that ran into the token limit says so, a refusal is reported as other,
/// and every other end is a turn that is done.
pub proof fn law_ends_are_reported(stop_reason: StopReason)
    ensures
        finish_reason(stop_reason) == FinishReason::MaxTokenLimit <==> stop_reason is MaxTokens,
        finish_reason(stop_reason) == FinishReason::Other <==> stop_reason is Refusal,
        finish_reason(stop_reason) == FinishReason::Done <==> stop_reason is EndTurn
            || stop_reason is MaxTurnRequests || stop_reason is Cancelled || stop_reason is Other,
{
}

/// What is said of an optional event is said of the event itself.
pub proof fn law_optional_events_are_faithful(event: ResponseEvent)
    ensures
        event_view(Some(event)) == Some(event@),
        event_view(None) is None,
{
}

/// The JSON text of a tool call is its payload unchanged; without one the payload
/// is empty.
pub proof fn law_payloads_are_the_json(json: Seq<char>)
    ensures
        payload_text(Some(json)) == json,
        payload_text(None).len() == 0,
{
}

/// Agent text is appended to the text of the output, thoughts to the reasoning,
/// and tool calls are replaced as a whole.
pub proof fn law_masks_name_the_content()
    ensures
        AGENT_OUTPUT_TEXT_MASK@ == "message.agent_output.text"@,
        AGENT_REASONING_MASK@ == "message.agent_reasoning.reasoning"@,
        TOOL_CALL_MASK@ == "message.tool_call"@,
{
}

} // verus!
