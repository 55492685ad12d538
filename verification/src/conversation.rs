//! State of one agent conversation, independent of how it is displayed.
//!
//! [`AcpConversation`] folds the stream of session updates into an ordered list
//! of [`AcpConversationItem`]s. It does no I/O: each operation says what to send,
//! and what comes back is handed to the next operation.

use std::path::PathBuf;

use agent_client_protocol_schema::v1::{
    AuthMethod, InitializeRequest, NewSessionRequest, Plan, PromptRequest,
};
use vstd::prelude::*;

use crate::connection::{description, RequestError};
use crate::session::{
    block_text, content_block_text, ChunkContent, ContentChunk, SessionUpdate, StopReason, ToolCall,
    ToolCallUpdate, ToolCallUpdateView, ToolCallView, UpdateFieldsView,
};
use crate::text::text_eq;
use crate::wire::{
    initialize_request, initialize_request_of, new_session_request, new_session_request_of,
    prompt_request, prompt_request_of, text_block, text_block_of,
};

verus! {

/// Lifecycle of a conversation.
#[derive(Debug, Clone, PartialEq, Eq)]
pub enum AcpConversationStatus {
    /// Spawning the process and running `initialize` and `session/new`.
    Starting,
    /// Session established; no prompt turn in flight.
    Idle,
    /// The agent requires authentication before a session can be created.
    NeedsAuthentication,
    /// A prompt turn is in flight.
    Running,
    /// The last turn ended (stop reason retained for display).
    Stopped(StopReason),
    /// The connection or a turn failed.
    Failed(String),
}

/// What an [`AcpConversationStatus`] says.
pub enum StatusView {
    Starting,
    Idle,
    NeedsAuthentication,
    Running,
    Stopped(StopReason),
    Failed(Seq<char>),
}

impl View for AcpConversationStatus {
    type V = StatusView;

    open spec fn view(&self) -> StatusView {
        match self {
            AcpConversationStatus::Starting => StatusView::Starting,
            AcpConversationStatus::Idle => StatusView::Idle,
            AcpConversationStatus::NeedsAuthentication => StatusView::NeedsAuthentication,
            AcpConversationStatus::Running => StatusView::Running,
            AcpConversationStatus::Stopped(reason) => StatusView::Stopped(*reason),
            AcpConversationStatus::Failed(message) => StatusView::Failed(message@),
        }
    }
}

/// One unit of conversation content that can be displayed.
#[derive(Debug, PartialEq)]
pub enum AcpConversationItem {
    UserMessage { markdown: String },
    AgentMessage { markdown: String },
    AgentThought { markdown: String },
    ToolCall(ToolCall),
    Plan(Plan),
}

/// Who speaks in a text item.
#[derive(Debug, Clone, Copy, PartialEq, Eq)]
pub enum Speaker {
    User,
    Agent,
    Thought,
}

/// What an [`AcpConversationItem`] says.
pub enum ItemView {
    Message { speaker: Speaker, markdown: Seq<char> },
    ToolCall(ToolCallView),
    Plan(Plan),
}

impl View for AcpConversationItem {
    type V = ItemView;

    open spec fn view(&self) -> ItemView {
        match self {
            AcpConversationItem::UserMessage { markdown } => ItemView::Message {
                speaker: Speaker::User,
                markdown: markdown@,
            },
            AcpConversationItem::AgentMessage { markdown } => ItemView::Message {
                speaker: Speaker::Agent,
                markdown: markdown@,
            },
            AcpConversationItem::AgentThought { markdown } => ItemView::Message {
                speaker: Speaker::Thought,
                markdown: markdown@,
            },
            AcpConversationItem::ToolCall(tool_call) => ItemView::ToolCall(tool_call@),
            AcpConversationItem::Plan(plan) => ItemView::Plan(*plan),
        }
    }
}

/// What the items of a conversation say.
pub open spec fn item_views(items: Seq<AcpConversationItem>) -> Seq<ItemView> {
    items.map_values(|item: AcpConversationItem| item@)
}

/// The position of the last item that meets `wanted`.
pub open spec fn last_item(items: Seq<ItemView>, wanted: spec_fn(ItemView) -> bool) -> Option<int>
    decreases items.len(),
{
    if items.len() == 0 {
        None
    } else if wanted(items.last()) {
        Some(items.len() - 1)
    } else {
        last_item(items.drop_last(), wanted)
    }
}

/// Whether an item is a plan.
pub open spec fn is_plan(item: ItemView) -> bool {
    item is Plan
}

/// Whether an item is the tool call with the given id.
pub open spec fn is_call(item: ItemView, id: Seq<char>) -> bool {
    item matches ItemView::ToolCall(tool_call) && tool_call.tool_call_id == id
}

/// Whether an item is text by the given speaker.
pub open spec fn is_said_by(item: ItemView, speaker: Speaker) -> bool {
    item matches ItemView::Message { speaker: by, .. } && by == speaker
}

/// The items after `speaker` said `text`: it continues the last item where that
/// is by the same speaker, and is an item of its own otherwise.
pub open spec fn with_text(items: Seq<ItemView>, speaker: Speaker, text: Seq<char>) -> Seq<
    ItemView,
> {
    if items.len() > 0 && is_said_by(items.last(), speaker) {
        items.drop_last().push(
            ItemView::Message { speaker, markdown: items.last()->markdown + text },
        )
    } else {
        items.push(ItemView::Message { speaker, markdown: text })
    }
}

/// The given value where there is one, and the present value otherwise.
pub open spec fn or_kept<T>(given: Option<T>, present: T) -> T {
    match given {
        Some(value) => value,
        None => present,
    }
}

/// The given value where there is one, and the present option otherwise.
pub open spec fn or_kept_option<T>(given: Option<T>, present: Option<T>) -> Option<T> {
    match given {
        Some(value) => Some(value),
        None => present,
    }
}

/// A tool call with the given fields replaced.
pub open spec fn merged(tool_call: ToolCallView, fields: UpdateFieldsView) -> ToolCallView {
    ToolCallView {
        tool_call_id: tool_call.tool_call_id,
        title: or_kept(fields.title, tool_call.title),
        kind: or_kept(fields.kind, tool_call.kind),
        status: or_kept(fields.status, tool_call.status),
        content: or_kept(fields.content, tool_call.content),
        locations: or_kept(fields.locations, tool_call.locations),
        raw_input: or_kept_option(fields.raw_input, tool_call.raw_input),
        raw_output: or_kept_option(fields.raw_output, tool_call.raw_output),
        meta: tool_call.meta,
    }
}

/// The items after a tool call update: the last tool call with its id is merged
/// with it. An update for an unknown tool call changes nothing.
pub open spec fn with_tool_call_update(
    items: Seq<ItemView>,
    update: ToolCallUpdateView,
) -> Seq<ItemView> {
    match last_item(items, |item: ItemView| is_call(item, update.tool_call_id)) {
        Some(i) => items.update(i, ItemView::ToolCall(merged(items[i]->ToolCall_0, update.fields))),
        None => items,
    }
}

/// The items after a plan: it replaces the last plan where there is one.
pub open spec fn with_plan(items: Seq<ItemView>, plan: Plan) -> Seq<ItemView> {
    match last_item(items, |item: ItemView| is_plan(item)) {
        Some(i) => items.update(i, ItemView::Plan(plan)),
        None => items.push(ItemView::Plan(plan)),
    }
}

/// Who speaks in an update, and what is said, where it says anything.
pub open spec fn spoken(update: SessionUpdate) -> Option<(Speaker, Seq<char>)> {
    let (speaker, chunk) = match update {
        SessionUpdate::UserMessageChunk(chunk) => (Speaker::User, Some(chunk)),
        SessionUpdate::AgentMessageChunk(chunk) => (Speaker::Agent, Some(chunk)),
        SessionUpdate::AgentThoughtChunk(chunk) => (Speaker::Thought, Some(chunk)),
        _ => (Speaker::User, None),
    };
    match chunk {
        Some(chunk) => match block_text(chunk.content) {
            Some(text) => Some((speaker, text)),
            None => None,
        },
        None => None,
    }
}

/// The items after one session update.
pub open spec fn with_update(items: Seq<ItemView>, update: SessionUpdate) -> Seq<ItemView> {
    match update {
        SessionUpdate::ToolCall(tool_call) => items.push(ItemView::ToolCall(tool_call@)),
        SessionUpdate::ToolCallUpdate(update) => with_tool_call_update(items, update@),
        SessionUpdate::Plan(plan) => with_plan(items, plan),
        _ => match spoken(update) {
            Some((speaker, text)) => with_text(items, speaker, text),
            None => items,
        },
    }
}

/// A conversation over a connection `C` to an agent process.
pub struct AcpConversation<C> {
    pub connection: Option<C>,
    pub status: AcpConversationStatus,
    pub session_id: Option<String>,
    pub auth_methods: Vec<AuthMethod>,
    pub items: Vec<AcpConversationItem>,
}

/// The text of an optional string.
pub open spec fn optional_text(text: Option<String>) -> Option<Seq<char>> {
    match text {
        Some(text) => Some(text@),
        None => None,
    }
}

/// What an [`AcpConversation`] holds.
pub struct ConversationView<C> {
    pub connection: Option<C>,
    pub status: StatusView,
    pub session_id: Option<Seq<char>>,
    pub auth_methods: Seq<AuthMethod>,
    pub items: Seq<ItemView>,
}

impl<C> View for AcpConversation<C> {
    type V = ConversationView<C>;

    open spec fn view(&self) -> ConversationView<C> {
        ConversationView {
            connection: self.connection,
            status: self.status@,
            session_id: optional_text(self.session_id),
            auth_methods: self.auth_methods@,
            items: item_views(self.items@),
        }
    }
}

/// Whether an item is text by the given speaker.
fn said_by(item: &AcpConversationItem, speaker: Speaker) -> (found: bool)
    ensures
        found == is_said_by(item@, speaker),
{
    match (item, speaker) {
        (AcpConversationItem::UserMessage { .. }, Speaker::User) => true,
        (AcpConversationItem::AgentMessage { .. }, Speaker::Agent) => true,
        (AcpConversationItem::AgentThought { .. }, Speaker::Thought) => true,
        _ => false,
    }
}

/// A text item.
fn text_item(speaker: Speaker, markdown: String) -> (item: AcpConversationItem)
    ensures
        item@ == (ItemView::Message { speaker, markdown: markdown@ }),
{
    match speaker {
        Speaker::User => AcpConversationItem::UserMessage { markdown },
        Speaker::Agent => AcpConversationItem::AgentMessage { markdown },
        Speaker::Thought => AcpConversationItem::AgentThought { markdown },
    }
}

/// Replaces the fields of `tool_call` that `update` gives.
fn merge_fields(tool_call: &mut ToolCall, update: ToolCallUpdate)
    ensures
        final(tool_call)@ == merged(old(tool_call)@, update@.fields),
{
    let fields = update.fields;
    if let Some(title) = fields.title {
        tool_call.title = title;
    }
    if let Some(kind) = fields.kind {
        tool_call.kind = kind;
    }
    if let Some(status) = fields.status {
        tool_call.status = status;
    }
    if let Some(content) = fields.content {
        tool_call.content = content;
    }
    if let Some(locations) = fields.locations {
        tool_call.locations = locations;
    }
    if let Some(raw_input) = fields.raw_input {
        tool_call.raw_input = Some(raw_input);
    }
    if let Some(raw_output) = fields.raw_output {
        tool_call.raw_output = Some(raw_output);
    }
}

impl<C> AcpConversation<C> {
    /// Appends text to the last item, or starts an item with it.
    fn append_text(&mut self, speaker: Speaker, text: &str)
        ensures
            final(self)@ == (ConversationView {
                items: with_text(old(self)@.items, speaker, text@),
                ..old(self)@
            }),
    {
        let count = self.items.len();
        if count > 0 && said_by(&self.items[count - 1], speaker) {
            match &mut self.items[count - 1] {
                AcpConversationItem::UserMessage { markdown } => markdown.append(text),
                AcpConversationItem::AgentMessage { markdown } => markdown.append(text),
                AcpConversationItem::AgentThought { markdown } => markdown.append(text),
                AcpConversationItem::ToolCall(_) => {},
                AcpConversationItem::Plan(_) => {},
            }
        } else {
            self.items.push(text_item(speaker, text.to_owned()));
        }
        assert(self@.items =~= with_text(old(self)@.items, speaker, text@));
    }

    /// Merges a tool call update into the last [`AcpConversationItem::ToolCall`] with its id.
    pub fn apply_tool_call_update(&mut self, update: ToolCallUpdate)
        ensures
            final(self)@ == (ConversationView {
                items: with_tool_call_update(old(self)@.items, update@),
                ..old(self)@
            }),
    {
        let ghost wanted = |item: ItemView| is_call(item, update@.tool_call_id);
        let ghost all = self@.items;
        let mut end: usize = self.items.len();
        assert(all.take(end as int) =~= all);
        while end > 0
            invariant
                end <= self.items@.len(),
                *self == *old(self),
                all == self@.items,
                wanted == (|item: ItemView| is_call(item, update@.tool_call_id)),
                last_item(all, wanted) == last_item(all.take(end as int), wanted),
            decreases end,
        {
            assert(all.take(end as int).drop_last() =~= all.take(end - 1));
            assert(all.take(end as int).last() == self.items@[end - 1]@);
            let found = match &self.items[end - 1] {
                AcpConversationItem::ToolCall(tool_call) => text_eq(
                    tool_call.tool_call_id.as_str(),
                    update.tool_call_id.as_str(),
                ),
                _ => false,
            };
            if found {
                if let AcpConversationItem::ToolCall(tool_call) = &mut self.items[end - 1] {
                    merge_fields(tool_call, update);
                }
                assert(self@.items =~= with_tool_call_update(old(self)@.items, update@));
                return;
            }
            end = end - 1;
        }
    }

    /// Makes `plan` the plan of the conversation.
    fn apply_plan(&mut self, plan: Plan)
        ensures
            final(self)@ == (ConversationView {
                items: with_plan(old(self)@.items, plan),
                ..old(self)@
            }),
    {
        let ghost wanted = |item: ItemView| is_plan(item);
        let ghost all = self@.items;
        let mut end: usize = self.items.len();
        assert(all.take(end as int) =~= all);
        while end > 0
            invariant
                end <= self.items@.len(),
                *self == *old(self),
                all == self@.items,
                wanted == (|item: ItemView| is_plan(item)),
                last_item(all, wanted) == last_item(all.take(end as int), wanted),
            decreases end,
        {
            assert(all.take(end as int).drop_last() =~= all.take(end - 1));
            assert(all.take(end as int).last() == self.items@[end - 1]@);
            let found = match &self.items[end - 1] {
                AcpConversationItem::Plan(_) => true,
                _ => false,
            };
            if found {
                self.items.set(end - 1, AcpConversationItem::Plan(plan));
                assert(self@.items =~= with_plan(old(self)@.items, plan));
                return;
            }
            end = end - 1;
        }
        self.items.push(AcpConversationItem::Plan(plan));
        assert(self@.items =~= with_plan(old(self)@.items, plan));
    }

    /// Adds the text of a chunk, if it has any.
    fn apply_chunk(&mut self, speaker: Speaker, chunk: ContentChunk)
        ensures
            final(self)@ == (ConversationView {
                items: match block_text(chunk.content) {
                    Some(text) => with_text(old(self)@.items, speaker, text),
                    None => old(self)@.items,
                },
                ..old(self)@
            }),
    {
        if let Some(text) = content_block_text(&chunk.content) {
            self.append_text(speaker, text);
        }
    }

    /// Folds one session update into the item list.
    pub fn apply_update(&mut self, update: SessionUpdate)
        ensures
            final(self)@ == (ConversationView {
                items: with_update(old(self)@.items, update),
                ..old(self)@
            }),
    {
        match update {
            // Echoed user content (for example when a session is replayed).
            SessionUpdate::UserMessageChunk(chunk) => self.apply_chunk(Speaker::User, chunk),
            SessionUpdate::AgentMessageChunk(chunk) => self.apply_chunk(Speaker::Agent, chunk),
            SessionUpdate::AgentThoughtChunk(chunk) => self.apply_chunk(Speaker::Thought, chunk),
            SessionUpdate::ToolCall(tool_call) => {
                self.items.push(AcpConversationItem::ToolCall(tool_call));
                assert(self@.items =~= with_update(old(self)@.items, update));
            },
            SessionUpdate::ToolCallUpdate(update) => self.apply_tool_call_update(update),
            SessionUpdate::Plan(plan) => self.apply_plan(plan),
            // Not displayed.
            _ => {},
        }
    }
}

/// The protocol version that this client speaks.
pub const PROTOCOL_VERSION: u16 = 1;

/// Something happened to a conversation.
#[derive(Debug, Clone, Copy, PartialEq, Eq)]
pub enum AcpConversationEvent {
    /// Status or items changed.
    Updated,
}

/// What the handshake does once `initialize` has come back.
pub enum HandshakeStep {
    /// Send `session/new` and keep the advertised ways to authenticate.
    NewSession { auth_methods: Vec<AuthMethod>, request: NewSessionRequest },
    /// The handshake is over.
    Failed(RequestError),
}

/// What a handshake ends with: the advertised ways to authenticate and, if one
/// could be created, the session.
pub struct Handshake {
    pub auth_methods: Vec<AuthMethod>,
    pub session_id: Option<String>,
}

/// The request that opens the handshake: this client reads and writes text files
/// and runs terminals.
pub fn begin_handshake() -> (request: InitializeRequest)
    ensures
        request == initialize_request_of(PROTOCOL_VERSION, true, true, true),
{
    initialize_request(PROTOCOL_VERSION, true, true, true)
}

/// Goes on with the handshake after `initialize`, for a session rooted at `cwd`.
pub fn after_initialize(initialized: Result<Vec<AuthMethod>, RequestError>, cwd: PathBuf) -> (step:
    HandshakeStep)
    ensures
        match initialized {
            Ok(methods) => step == (HandshakeStep::NewSession {
                auth_methods: methods,
                request: new_session_request_of(cwd),
            }),
            Err(error) => step == HandshakeStep::Failed(error),
        },
{
    match initialized {
        Ok(auth_methods) => HandshakeStep::NewSession {
            auth_methods,
            request: new_session_request(cwd),
        },
        Err(error) => HandshakeStep::Failed(error),
    }
}

/// Ends the handshake after `session/new`. A failure of an agent that advertised
/// ways to authenticate means that it wants authentication first.
pub fn after_new_session(auth_methods: Vec<AuthMethod>, created: Result<String, RequestError>) -> (
result: Result<Handshake, RequestError>)
    ensures
        match created {
            Ok(session_id) => result == Ok::<Handshake, RequestError>(
                Handshake { auth_methods, session_id: Some(session_id) },
            ),
            Err(error) => if auth_methods@.len() > 0 {
                result == Ok::<Handshake, RequestError>(
                    Handshake { auth_methods, session_id: None },
                )
            } else {
                result == Err::<Handshake, RequestError>(error)
            },
        },
{
    match created {
        Ok(session_id) => Ok(Handshake { auth_methods, session_id: Some(session_id) }),
        Err(error) => if auth_methods.len() > 0 {
            Ok(Handshake { auth_methods, session_id: None })
        } else {
            Err(error)
        },
    }
}

/// The conversation after its handshake ended.
pub open spec fn with_handshake<C>(
    conversation: ConversationView<C>,
    result: Result<Handshake, RequestError>,
) -> ConversationView<C> {
    match result {
        Ok(handshake) => match handshake.session_id {
            Some(session_id) => ConversationView {
                auth_methods: handshake.auth_methods@,
                session_id: Some(session_id@),
                status: StatusView::Idle,
                ..conversation
            },
            None => ConversationView {
                auth_methods: handshake.auth_methods@,
                status: StatusView::NeedsAuthentication,
                ..conversation
            },
        },
        Err(error) => ConversationView {
            status: StatusView::Failed(description(error@)),
            ..conversation
        },
    }
}

/// The status after a prompt turn ended.
pub open spec fn turn_status(result: Result<StopReason, RequestError>) -> StatusView {
    match result {
        Ok(stop_reason) => StatusView::Stopped(stop_reason),
        Err(error) => StatusView::Failed(description(error@)),
    }
}

impl<C> AcpConversation<C> {
    /// A conversation over the process that was spawned for it; its handshake
    /// comes next. Where spawning failed, the conversation has failed too.
    pub fn start(spawned: Result<C, String>) -> (conversation: AcpConversation<C>)
        ensures
            conversation@ == (ConversationView {
                connection: match spawned {
                    Ok(connection) => Some(connection),
                    Err(_) => None,
                },
                status: match spawned {
                    Ok(_) => StatusView::Starting,
                    Err(error) => StatusView::Failed(error@),
                },
                session_id: None,
                auth_methods: seq![],
                items: seq![],
            }),
    {
        let (connection, status) = match spawned {
            Ok(connection) => (Some(connection), AcpConversationStatus::Starting),
            Err(error) => (None, AcpConversationStatus::Failed(error)),
        };
        let conversation = AcpConversation {
            connection,
            status,
            session_id: None,
            auth_methods: Vec::new(),
            items: Vec::new(),
        };
        assert(conversation@.items =~= seq![]);
        conversation
    }

    pub fn status(&self) -> (status: &AcpConversationStatus)
        ensures
            status@ == self@.status,
    {
        &self.status
    }

    pub fn items(&self) -> (items: &[AcpConversationItem])
        ensures
            item_views(items@) == self@.items,
    {
        self.items.as_slice()
    }

    pub fn auth_methods(&self) -> (methods: &[AuthMethod])
        ensures
            methods@ == self@.auth_methods,
    {
        self.auth_methods.as_slice()
    }

    /// Takes in one session update.
    pub fn session_updated(&mut self, update: SessionUpdate) -> (event: AcpConversationEvent)
        ensures
            final(self)@ == (ConversationView {
                items: with_update(old(self)@.items, update),
                ..old(self)@
            }),
            event == AcpConversationEvent::Updated,
    {
        self.apply_update(update);
        AcpConversationEvent::Updated
    }

    /// Takes in the end of the handshake.
    pub fn handshake_finished(&mut self, result: Result<Handshake, RequestError>) -> (event:
        AcpConversationEvent)
        ensures
            final(self)@ == with_handshake(old(self)@, result),
            event == AcpConversationEvent::Updated,
    {
        match result {
            Ok(handshake) => {
                self.auth_methods = handshake.auth_methods;
                match handshake.session_id {
                    Some(session_id) => {
                        self.session_id = Some(session_id);
                        self.status = AcpConversationStatus::Idle;
                    },
                    None => {
                        self.status = AcpConversationStatus::NeedsAuthentication;
                    },
                }
            },
            Err(error) => {
                self.status = AcpConversationStatus::Failed(error.describe());
            },
        }
        AcpConversationEvent::Updated
    }

    /// Starts a prompt turn with the user's markdown text: the request to send,
    /// and that the conversation changed. Without a connection and a session
    /// nothing happens.
    pub fn prompt(&mut self, text: String) -> (started: Option<
        (PromptRequest, AcpConversationEvent),
    >)
        ensures
            match (old(self)@.connection, old(self)@.session_id) {
                (Some(_), Some(session_id)) => {
                    &&& started == Some(
                        (
                            prompt_request_of(session_id, seq![text_block_of(text@)]),
                            AcpConversationEvent::Updated,
                        ),
                    )
                    &&& final(self)@ == (ConversationView {
                        items: old(self)@.items.push(
                            ItemView::Message { speaker: Speaker::User, markdown: text@ },
                        ),
                        status: StatusView::Running,
                        ..old(self)@
                    })
                },
                _ => started is None && final(self)@ == old(self)@,
            },
    {
        if self.connection.is_none() {
            return None;
        }
        let Some(session_id) = self.session_id.clone() else {
            return None;
        };
        self.items.push(AcpConversationItem::UserMessage { markdown: text.clone() });
        self.status = AcpConversationStatus::Running;
        assert(self@.items =~= old(self)@.items.push(
            ItemView::Message { speaker: Speaker::User, markdown: text@ },
        ));
        let mut blocks = Vec::new();
        blocks.push(text_block(text));
        assert(blocks@ =~= seq![text_block_of(text@)]);
        Some((prompt_request(session_id, blocks), AcpConversationEvent::Updated))
    }

    /// Takes in the end of a prompt turn.
    pub fn prompt_finished(&mut self, result: Result<StopReason, RequestError>) -> (event:
        AcpConversationEvent)
        ensures
            final(self)@ == (ConversationView { status: turn_status(result), ..old(self)@ }),
            event == AcpConversationEvent::Updated,
    {
        match result {
            Ok(stop_reason) => {
                self.status = AcpConversationStatus::Stopped(stop_reason);
            },
            Err(error) => {
                self.status = AcpConversationStatus::Failed(error.describe());
            },
        }
        AcpConversationEvent::Updated
    }

    /// The session to cancel the turn of, and the connection to cancel it on, if
    /// there are both.
    pub fn cancel(&self) -> (target: Option<(&C, &str)>)
        ensures
            match (self@.connection, self@.session_id) {
                (Some(connection), Some(session_id)) => target matches Some(found) && *found.0
                    == connection && found.1@ == session_id,
                _ => target is None,
            },
    {
        match (&self.connection, &self.session_id) {
            (Some(connection), Some(session_id)) => Some((connection, session_id.as_str())),
            _ => None,
        }
    }

    /// The connection to shut down, if there is one.
    pub fn shutdown(&self) -> (connection: Option<&C>)
        ensures
            match self@.connection {
                Some(found) => connection == Some(&found),
                None => connection is None,
            },
    {
        self.connection.as_ref()
    }
}

/// What the position of the last item that meets `wanted` is.
proof fn lemma_last_item(items: Seq<ItemView>, wanted: spec_fn(ItemView) -> bool)
    ensures
        match last_item(items, wanted) {
            Some(i) => {
                &&& 0 <= i < items.len()
                &&& wanted(items[i])
                &&& forall|j: int| i < j < items.len() ==> !wanted(#[trigger] items[j])
            },
            None => forall|j: int| 0 <= j < items.len() ==> !wanted(#[trigger] items[j]),
        },
    decreases items.len(),
{
    if items.len() > 0 && !wanted(items.last()) {
        let rest = items.drop_last();
        lemma_last_item(rest, wanted);
        assert forall|j: int|
            (match last_item(rest, wanted) {
                Some(i) => i < j,
                None => 0 <= j,
            }) && j < items.len() implies !wanted(#[trigger] items[j]) by {
            if j < rest.len() {
                assert(items[j] == rest[j]);
            }
        }
    }
}

/// Two sequences of items that agree on which items meet `wanted` agree on the last of them.
proof fn lemma_last_item_agrees(
    items: Seq<ItemView>,
    others: Seq<ItemView>,
    wanted: spec_fn(ItemView) -> bool,
)
    requires
        items.len() == others.len(),
        forall|j: int| 0 <= j < items.len() ==> wanted(#[trigger] items[j]) == wanted(others[j]),
    ensures
        last_item(items, wanted) == last_item(others, wanted),
    decreases items.len(),
{
    if items.len() > 0 {
        assert(wanted(items[items.len() - 1]) == wanted(others[items.len() - 1]));
        assert forall|j: int| 0 <= j < items.len() - 1 implies wanted(
            #[trigger] items.drop_last()[j],
        ) == wanted(others.drop_last()[j]) by {
            assert(wanted(items[j]) == wanted(others[j]));
        }
        lemma_last_item_agrees(items.drop_last(), others.drop_last(), wanted);
    }
}

/// Chunks by one speaker accumulate into one item: saying `a` and then `b` is
/// saying `a` followed by `b`.
pub proof fn law_chunks_accumulate(
    items: Seq<ItemView>,
    speaker: Speaker,
    a: Seq<char>,
    b: Seq<char>,
)
    ensures
        with_text(with_text(items, speaker, a), speaker, b) == with_text(items, speaker, a + b),
{
    let once = with_text(items, speaker, a);
    if items.len() > 0 && is_said_by(items.last(), speaker) {
        let said = items.last()->markdown;
        assert(said + a + b =~= said + (a + b));
        assert(once.drop_last() =~= items.drop_last());
    } else {
        assert(once.drop_last() =~= items);
    }
}

/// Chunks by different speakers stay separate items.
pub proof fn law_speakers_stay_separate(
    items: Seq<ItemView>,
    first: Speaker,
    a: Seq<char>,
    second: Speaker,
    b: Seq<char>,
)
    requires
        first != second,
    ensures
        with_text(with_text(items, first, a), second, b) == with_text(items, first, a).push(
            ItemView::Message { speaker: second, markdown: b },
        ),
{
}

/// Whether two items are of the same kind: text by the same speaker, the same
/// tool call, or a plan.
pub open spec fn same_kind(a: ItemView, b: ItemView) -> bool {
    match (a, b) {
        (
            ItemView::Message { speaker: one, .. },
            ItemView::Message { speaker: other, .. },
        ) => one == other,
        (ItemView::ToolCall(one), ItemView::ToolCall(other)) => one.tool_call_id
            == other.tool_call_id,
        (ItemView::Plan(_), ItemView::Plan(_)) => true,
        _ => false,
    }
}

/// An update never removes an item nor changes its kind or place; it adds at
/// most one item, at the end. Of the items that were there, it changes at most one.
pub proof fn law_items_stay_in_place(items: Seq<ItemView>, update: SessionUpdate)
    ensures
        items.len() <= with_update(items, update).len() <= items.len() + 1,
        forall|i: int|
            0 <= i < items.len() ==> same_kind(items[i], #[trigger] with_update(items, update)[i]),
        forall|i: int, j: int|
            #![trigger with_update(items, update)[i], with_update(items, update)[j]]
            0 <= i < j < items.len() ==> with_update(items, update)[i] == items[i]
                || with_update(items, update)[j] == items[j],
{
    match update {
        SessionUpdate::ToolCallUpdate(update) => {
            lemma_last_item(items, |item: ItemView| is_call(item, update@.tool_call_id));
        },
        SessionUpdate::Plan(plan) => {
            lemma_last_item(items, |item: ItemView| is_plan(item));
        },
        _ => {},
    }
}

/// An update for a tool call that is not there changes nothing.
pub proof fn law_unknown_tool_calls_are_ignored(items: Seq<ItemView>, update: ToolCallUpdateView)
    requires
        forall|i: int| 0 <= i < items.len() ==> !is_call(#[trigger] items[i], update.tool_call_id),
    ensures
        with_tool_call_update(items, update) == items,
{
    lemma_last_item(items, |item: ItemView| is_call(item, update.tool_call_id));
}

/// An update of a tool call that was just added is merged into it, and into
/// nothing else.
pub proof fn law_tool_call_updates_merge(
    items: Seq<ItemView>,
    tool_call: ToolCallView,
    update: ToolCallUpdateView,
)
    requires
        tool_call.tool_call_id == update.tool_call_id,
    ensures
        with_tool_call_update(items.push(ItemView::ToolCall(tool_call)), update) == items.push(
            ItemView::ToolCall(merged(tool_call, update.fields)),
        ),
{
    let added = items.push(ItemView::ToolCall(tool_call));
    let wanted = |item: ItemView| is_call(item, update.tool_call_id);
    assert(wanted(added.last()));
    assert(last_item(added, wanted) == Some(added.len() - 1));
    assert(with_tool_call_update(added, update) =~= items.push(
        ItemView::ToolCall(merged(tool_call, update.fields)),
    ));
}

/// Applying the same tool call update again changes nothing.
pub proof fn law_tool_call_updates_are_idempotent(
    items: Seq<ItemView>,
    update: ToolCallUpdateView,
)
    ensures
        with_tool_call_update(with_tool_call_update(items, update), update)
            == with_tool_call_update(items, update),
{
    let wanted = |item: ItemView| is_call(item, update.tool_call_id);
    let once = with_tool_call_update(items, update);
    lemma_last_item(items, wanted);
    assert forall|j: int| 0 <= j < items.len() implies wanted(#[trigger] items[j]) == wanted(
        once[j],
    ) by {}
    lemma_last_item_agrees(items, once, wanted);
    assert(with_tool_call_update(once, update) =~= once);
}

/// Whether at most one item is a plan.
pub open spec fn at_most_one_plan(items: Seq<ItemView>) -> bool {
    forall|i: int, j: int|
        0 <= i < items.len() && 0 <= j < items.len() && is_plan(#[trigger] items[i]) && is_plan(
            #[trigger] items[j],
        ) ==> i == j
}

proof fn lemma_at_most_one_plan(items: Seq<ItemView>, update: SessionUpdate)
    requires
        at_most_one_plan(items),
    ensures
        at_most_one_plan(with_update(items, update)),
{
    law_items_stay_in_place(items, update);
    lemma_last_item(items, |item: ItemView| is_plan(item));
    if let SessionUpdate::ToolCallUpdate(update) = update {
        lemma_last_item(items, |item: ItemView| is_call(item, update@.tool_call_id));
    }
    let next = with_update(items, update);
    assert forall|i: int, j: int|
        0 <= i < next.len() && 0 <= j < next.len() && is_plan(#[trigger] next[i]) && is_plan(
            #[trigger] next[j],
        ) implies i == j by {
        if i < items.len() {
            assert(same_kind(items[i], next[i]));
            assert(is_plan(items[i]));
        }
        if j < items.len() {
            assert(same_kind(items[j], next[j]));
            assert(is_plan(items[j]));
        }
        let wanted = |item: ItemView| is_plan(item);
        if i < items.len() && j == items.len() {
            assert(update is Plan);
            assert(wanted(items[i]));
        }
        if j < items.len() && i == items.len() {
            assert(update is Plan);
            assert(wanted(items[j]));
        }
    }
}

/// A later plan takes the place of the plan before it.
pub proof fn law_plans_replace_each_other(items: Seq<ItemView>, first: Plan, second: Plan)
    ensures
        with_plan(with_plan(items, first), second) == with_plan(items, second),
{
    let wanted = |item: ItemView| is_plan(item);
    let once = with_plan(items, first);
    lemma_last_item(items, wanted);
    match last_item(items, wanted) {
        Some(i) => {
            assert forall|j: int| 0 <= j < items.len() implies wanted(#[trigger] items[j])
                == wanted(once[j]) by {}
            lemma_last_item_agrees(items, once, wanted);
        },
        None => {
            assert(wanted(once.last()));
            assert(last_item(once, wanted) == Some(items.len() as int));
        },
    }
    assert(with_plan(once, second) =~= with_plan(items, second));
}

/// Without a session no prompt turn can start, and a handshake that ends
/// without one leaves the conversation waiting for authentication or failed.
pub proof fn law_sessions_come_from_the_handshake<C>(
    conversation: ConversationView<C>,
    result: Result<Handshake, RequestError>,
)
    requires
        conversation.session_id is None,
    ensures
        with_handshake(conversation, result).session_id is Some <==> with_handshake(
            conversation,
            result,
        ).status is Idle,
        with_handshake(conversation, result).session_id is None ==> with_handshake(
            conversation,
            result,
        ).status is NeedsAuthentication || with_handshake(conversation, result).status is Failed,
        with_handshake(conversation, result).items == conversation.items,
{
}

/// Whether no two neighbouring items are text by the same speaker.
pub open spec fn neighbours_differ(items: Seq<ItemView>) -> bool {
    forall|i: int, speaker: Speaker|
        0 < i < items.len() && #[trigger] is_said_by(items[i], speaker) ==> !is_said_by(
            items[i - 1],
            speaker,
        )
}

/// The items after all of `updates`.
pub open spec fn with_updates(items: Seq<ItemView>, updates: Seq<SessionUpdate>) -> Seq<ItemView>
    decreases updates.len(),
{
    if updates.len() == 0 {
        items
    } else {
        with_update(with_updates(items, updates.drop_last()), updates.last())
    }
}

proof fn lemma_neighbours_differ(items: Seq<ItemView>, update: SessionUpdate)
    requires
        neighbours_differ(items),
    ensures
        neighbours_differ(with_update(items, update)),
{
    law_items_stay_in_place(items, update);
    let next = with_update(items, update);
    if let SessionUpdate::ToolCallUpdate(update) = update {
        lemma_last_item(items, |item: ItemView| is_call(item, update@.tool_call_id));
    }
    if let SessionUpdate::Plan(plan) = update {
        lemma_last_item(items, |item: ItemView| is_plan(item));
    }
    assert forall|i: int, speaker: Speaker|
        0 < i < next.len() && #[trigger] is_said_by(next[i], speaker) implies !is_said_by(
        next[i - 1],
        speaker,
    ) by {
        assert(same_kind(items[i - 1], next[i - 1]));
        if i < items.len() {
            assert(same_kind(items[i], next[i]));
            assert(is_said_by(items[i], speaker));
            assert(!is_said_by(items[i - 1], speaker));
        } else {
            assert(next[i - 1] == items.last());
        }
    }
}

/// However an agent streams, what one speaker says without interruption is one
/// item: neighbouring items that came from session updates never have the same
/// speaker.
pub proof fn law_neighbours_have_different_speakers(
    items: Seq<ItemView>,
    updates: Seq<SessionUpdate>,
)
    requires
        neighbours_differ(items),
    ensures
        neighbours_differ(with_updates(items, updates)),
    decreases updates.len(),
{
    if updates.len() > 0 {
        law_neighbours_have_different_speakers(items, updates.drop_last());
        lemma_neighbours_differ(with_updates(items, updates.drop_last()), updates.last());
    }
}

/// A conversation never shows more than one plan, whatever updates it takes in.
pub proof fn law_at_most_one_plan(items: Seq<ItemView>, updates: Seq<SessionUpdate>)
    requires
        at_most_one_plan(items),
    ensures
        at_most_one_plan(with_updates(items, updates)),
        at_most_one_plan(with_updates(seq![], updates)),
    decreases updates.len(),
{
    if updates.len() > 0 {
        law_at_most_one_plan(items, updates.drop_last());
        lemma_at_most_one_plan(with_updates(items, updates.drop_last()), updates.last());
        lemma_at_most_one_plan(with_updates(seq![], updates.drop_last()), updates.last());
    }
}

/// All that a speaker said, in order.
pub open spec fn said_text(items: Seq<ItemView>, speaker: Speaker) -> Seq<char>
    decreases items.len(),
{
    if items.len() == 0 {
        seq![]
    } else {
        let before = said_text(items.drop_last(), speaker);
        match items.last() {
            ItemView::Message { speaker: by, markdown } if by == speaker => before + markdown,
            _ => before,
        }
    }
}

/// The tool calls among items, in order.
pub open spec fn called(items: Seq<ItemView>) -> Seq<ToolCallView>
    decreases items.len(),
{
    if items.len() == 0 {
        seq![]
    } else {
        match items.last() {
            ItemView::ToolCall(tool_call) => called(items.drop_last()).push(tool_call),
            _ => called(items.drop_last()),
        }
    }
}

/// The update that carries a block by a speaker.
pub open spec fn chunk_by(speaker: Speaker, content: ChunkContent) -> SessionUpdate {
    match speaker {
        Speaker::User => SessionUpdate::UserMessageChunk(ContentChunk { content }),
        Speaker::Agent => SessionUpdate::AgentMessageChunk(ContentChunk { content }),
        Speaker::Thought => SessionUpdate::AgentThoughtChunk(ContentChunk { content }),
    }
}

/// What one update has a speaker say: the text of a text block, the target of a
/// link, and otherwise nothing.
pub open spec fn words_of(update: SessionUpdate, speaker: Speaker) -> Seq<char> {
    let content = match (update, speaker) {
        (SessionUpdate::UserMessageChunk(chunk), Speaker::User) => chunk.content,
        (SessionUpdate::AgentMessageChunk(chunk), Speaker::Agent) => chunk.content,
        (SessionUpdate::AgentThoughtChunk(chunk), Speaker::Thought) => chunk.content,
        _ => ChunkContent::Other,
    };
    match content {
        ChunkContent::Text { text } => text@,
        ChunkContent::ResourceLink { uri } => uri@,
        _ => seq![],
    }
}

/// What updates have a speaker say, joined in order.
pub open spec fn words_of_all(updates: Seq<SessionUpdate>, speaker: Speaker) -> Seq<char>
    decreases updates.len(),
{
    if updates.len() == 0 {
        seq![]
    } else {
        words_of_all(updates.drop_last(), speaker) + words_of(updates.last(), speaker)
    }
}

/// Text goes to the end of the last item where that is by its speaker, and
/// otherwise, after a tool call, a plan, another speaker or nothing at all,
/// becomes a new last item that holds exactly the text. Nothing else changes.
pub proof fn law_text_is_put_at_the_end(
    items: Seq<ItemView>,
    speaker: Speaker,
    text: String,
    markdown: Seq<char>,
)
    ensures
        items.len() > 0 && items.last() == (ItemView::Message { speaker, markdown })
            ==> with_update(items, chunk_by(speaker, ChunkContent::Text { text }))
            == items.drop_last().push(ItemView::Message { speaker, markdown: markdown + text@ }),
        (items.len() == 0 || items.last() is ToolCall || items.last() is Plan || (
        items.last() is Message && items.last()->speaker != speaker)) ==> with_update(
            items,
            chunk_by(speaker, ChunkContent::Text { text }),
        ) == items.push(ItemView::Message { speaker, markdown: text@ }),
        with_update(items, chunk_by(speaker, ChunkContent::ResourceLink { uri: text }))
            == with_update(items, chunk_by(speaker, ChunkContent::Text { text })),
{
}

/// A block that is neither text nor a link changes no item, whoever sends it.
pub proof fn law_other_blocks_are_not_shown(
    items: Seq<ItemView>,
    speaker: Speaker,
    content: ChunkContent,
)
    requires
        !(content is Text),
        !(content is ResourceLink),
    ensures
        with_update(items, chunk_by(speaker, content)) == items,
{
}

proof fn lemma_pushed(items: Seq<ItemView>, item: ItemView, speaker: Speaker)
    ensures
        said_text(items.push(item), speaker) == (match item {
            ItemView::Message { speaker: by, markdown } if by == speaker => said_text(items, speaker)
                + markdown,
            _ => said_text(items, speaker),
        }),
        called(items.push(item)) == (match item {
            ItemView::ToolCall(tool_call) => called(items).push(tool_call),
            _ => called(items),
        }),
{
    assert(items.push(item).drop_last() =~= items);
}

proof fn lemma_replaced(items: Seq<ItemView>, i: int, item: ItemView, speaker: Speaker)
    requires
        0 <= i < items.len(),
        !(items[i] is Message),
        !(item is Message),
    ensures
        said_text(items.update(i, item), speaker) == said_text(items, speaker),
    decreases items.len(),
{
    let next = items.update(i, item);
    if i == items.len() - 1 {
        assert(next.drop_last() =~= items.drop_last());
    } else {
        lemma_replaced(items.drop_last(), i, item, speaker);
        assert(next.drop_last() =~= items.drop_last().update(i, item));
    }
}

proof fn lemma_words_are_kept(items: Seq<ItemView>, update: SessionUpdate, speaker: Speaker)
    ensures
        said_text(with_update(items, update), speaker) == said_text(items, speaker) + words_of(
            update,
            speaker,
        ),
{
    let next = with_update(items, update);
    let before = said_text(items, speaker);
    assert(before + Seq::<char>::empty() =~= before);
    match update {
        SessionUpdate::ToolCall(tool_call) => {
            lemma_pushed(items, ItemView::ToolCall(tool_call@), speaker);
        },
        SessionUpdate::ToolCallUpdate(update) => {
            let wanted = |item: ItemView| is_call(item, update@.tool_call_id);
            lemma_last_item(items, wanted);
            if let Some(i) = last_item(items, wanted) {
                lemma_replaced(items, i, next[i], speaker);
            }
        },
        SessionUpdate::Plan(plan) => {
            let wanted = |item: ItemView| is_plan(item);
            lemma_last_item(items, wanted);
            match last_item(items, wanted) {
                Some(i) => {
                    lemma_replaced(items, i, ItemView::Plan(plan), speaker);
                },
                None => {
                    lemma_pushed(items, ItemView::Plan(plan), speaker);
                },
            }
        },
        _ => {
            if let Some((by, text)) = spoken(update) {
                if items.len() > 0 && is_said_by(items.last(), by) {
                    let rest = items.drop_last();
                    let markdown = items.last()->markdown;
                    assert(items =~= rest.push(items.last()));
                    lemma_pushed(rest, ItemView::Message { speaker: by, markdown }, speaker);
                    lemma_pushed(
                        rest,
                        ItemView::Message { speaker: by, markdown: markdown + text },
                        speaker,
                    );
                    assert(said_text(rest, speaker) + (markdown + text) =~= said_text(rest, speaker)
                        + markdown + text);
                } else {
                    lemma_pushed(items, ItemView::Message { speaker: by, markdown: text }, speaker);
                }
            }
        },
    }
}

/// No word is lost, added or put in another mouth: what a speaker has said after
/// updates is what was said before, followed by what the updates have that
/// speaker say.
pub proof fn law_words_are_kept(
    items: Seq<ItemView>,
    updates: Seq<SessionUpdate>,
    speaker: Speaker,
)
    ensures
        said_text(with_updates(items, updates), speaker) == said_text(items, speaker)
            + words_of_all(updates, speaker),
    decreases updates.len(),
{
    let before = said_text(items, speaker);
    if updates.len() == 0 {
        assert(before + words_of_all(updates, speaker) =~= before);
    } else {
        let earlier = updates.drop_last();
        law_words_are_kept(items, earlier, speaker);
        lemma_words_are_kept(with_updates(items, earlier), updates.last(), speaker);
        assert(before + words_of_all(updates, speaker) =~= before + words_of_all(earlier, speaker)
            + words_of(updates.last(), speaker));
    }
}

/// A tool call becomes a new last item as it is, even where one with its id is
/// already there.
pub proof fn law_tool_calls_are_added(items: Seq<ItemView>, tool_call: ToolCall)
    ensures
        with_update(items, SessionUpdate::ToolCall(tool_call)) == items.push(
            ItemView::ToolCall(tool_call@),
        ),
        called(with_update(items, SessionUpdate::ToolCall(tool_call))) == called(items).push(
            tool_call@,
        ),
{
    lemma_pushed(items, ItemView::ToolCall(tool_call@), Speaker::User);
}

/// A tool call update changes the last tool call with its id and no other item:
/// of that call each field that the update gives becomes the given value, and
/// each field that it leaves out stays.
pub proof fn law_tool_call_updates_replace_given_fields(
    items: Seq<ItemView>,
    update: ToolCallUpdate,
    tool_call: ToolCallView,
    i: int,
)
    requires
        0 <= i < items.len(),
        items[i] == ItemView::ToolCall(tool_call),
        tool_call.tool_call_id == update@.tool_call_id,
        forall|j: int|
            i < j < items.len() && (#[trigger] items[j]) is ToolCall ==> (
            items[j]->ToolCall_0).tool_call_id != update@.tool_call_id,
    ensures
        ({
            let next = with_update(items, SessionUpdate::ToolCallUpdate(update));
            let merged_call = next[i]->ToolCall_0;
            let fields = update@.fields;
            &&& next.len() == items.len()
            &&& forall|j: int| 0 <= j < items.len() && j != i ==> #[trigger] next[j] == items[j]
            &&& next[i] is ToolCall
            &&& merged_call.tool_call_id == tool_call.tool_call_id
            &&& merged_call.meta == tool_call.meta
            &&& merged_call.title == (if fields.title is Some {
                fields.title->0
            } else {
                tool_call.title
            })
            &&& merged_call.kind == (if fields.kind is Some {
                fields.kind->0
            } else {
                tool_call.kind
            })
            &&& merged_call.status == (if fields.status is Some {
                fields.status->0
            } else {
                tool_call.status
            })
            &&& merged_call.content == (if fields.content is Some {
                fields.content->0
            } else {
                tool_call.content
            })
            &&& merged_call.locations == (if fields.locations is Some {
                fields.locations->0
            } else {
                tool_call.locations
            })
            &&& merged_call.raw_input == (if fields.raw_input is Some {
                fields.raw_input
            } else {
                tool_call.raw_input
            })
            &&& merged_call.raw_output == (if fields.raw_output is Some {
                fields.raw_output
            } else {
                tool_call.raw_output
            })
        }),
{
    let wanted = |item: ItemView| is_call(item, update@.tool_call_id);
    lemma_last_item(items, wanted);
    assert(wanted(items[i]));
    let found = last_item(items, wanted)->0;
    if found > i {
        assert(wanted(items[found]));
    }
}

/// A tool call update without a tool call of its id changes nothing.
pub proof fn law_stray_tool_call_updates_change_nothing(
    items: Seq<ItemView>,
    update: ToolCallUpdate,
)
    requires
        forall|j: int|
            0 <= j < items.len() && (#[trigger] items[j]) is ToolCall ==> (
            items[j]->ToolCall_0).tool_call_id != update@.tool_call_id,
    ensures
        with_update(items, SessionUpdate::ToolCallUpdate(update)) == items,
{
    law_unknown_tool_calls_are_ignored(items, update@);
}

/// A plan takes the place of the last plan, and is a new last item where there
/// is none.
pub proof fn law_plans_take_their_place(items: Seq<ItemView>, plan: Plan, i: int)
    ensures
        0 <= i < items.len() && items[i] is Plan && (forall|j: int|
            i < j < items.len() ==> !((#[trigger] items[j]) is Plan)) ==> with_update(
            items,
            SessionUpdate::Plan(plan),
        ) == items.update(i, ItemView::Plan(plan)),
        (forall|j: int| 0 <= j < items.len() ==> !((#[trigger] items[j]) is Plan)) ==> with_update(
            items,
            SessionUpdate::Plan(plan),
        ) == items.push(ItemView::Plan(plan)),
{
    let wanted = |item: ItemView| is_plan(item);
    lemma_last_item(items, wanted);
    if 0 <= i < items.len() && items[i] is Plan && (forall|j: int|
        i < j < items.len() ==> !((#[trigger] items[j]) is Plan)) {
        assert(wanted(items[i]));
        let found = last_item(items, wanted)->0;
        if found > i {
            assert(wanted(items[found]));
        }
    }
}

/// Updates that are neither speech, nor tool calls, nor plans change nothing.
pub proof fn law_other_updates_change_nothing(items: Seq<ItemView>, update: SessionUpdate)
    requires
        !(update is UserMessageChunk),
        !(update is AgentMessageChunk),
        !(update is AgentThoughtChunk),
        !(update is ToolCall),
        !(update is ToolCallUpdate),
        !(update is Plan),
    ensures
        with_update(items, update) == items,
{
}

/// A session makes the conversation idle in that session; a handshake without
/// one asks for authentication; one that failed leaves all but the status. The
/// items and the connection are kept throughout.
pub proof fn law_handshakes_decide_the_status<C>(
    conversation: ConversationView<C>,
    methods: Vec<AuthMethod>,
    session_id: String,
    error: RequestError,
)
    ensures
        with_handshake(
            conversation,
            Ok(Handshake { auth_methods: methods, session_id: Some(session_id) }),
        ) == (ConversationView {
            connection: conversation.connection,
            status: StatusView::Idle,
            session_id: Some(session_id@),
            auth_methods: methods@,
            items: conversation.items,
        }),
        with_handshake(conversation, Ok(Handshake { auth_methods: methods, session_id: None })) == (
        ConversationView {
            connection: conversation.connection,
            status: StatusView::NeedsAuthentication,
            session_id: conversation.session_id,
            auth_methods: methods@,
            items: conversation.items,
        }),
        with_handshake(conversation, Err(error)) == (ConversationView {
            connection: conversation.connection,
            status: StatusView::Failed(description(error@)),
            session_id: conversation.session_id,
            auth_methods: conversation.auth_methods,
            items: conversation.items,
        }),
{
}

/// A turn that ended shows its own stop reason, and one that failed what went
/// wrong.
pub proof fn law_turns_decide_the_status(stop_reason: StopReason, error: RequestError)
    ensures
        turn_status(Ok(stop_reason)) == StatusView::Stopped(stop_reason),
        turn_status(Err(error)) == StatusView::Failed(description(error@)),
{
}

/// The view of a status tells which it is and all that it holds.
pub proof fn law_status_views_are_faithful(stop_reason: StopReason, message: String)
    ensures
        AcpConversationStatus::Starting@ is Starting,
        AcpConversationStatus::Idle@ is Idle,
        AcpConversationStatus::NeedsAuthentication@ is NeedsAuthentication,
        AcpConversationStatus::Running@ is Running,
        AcpConversationStatus::Stopped(stop_reason)@ == StatusView::Stopped(stop_reason),
        AcpConversationStatus::Failed(message)@ == StatusView::Failed(message@),
{
}

/// The view of an item tells its kind and all that it holds.
pub proof fn law_item_views_are_faithful(
    markdown: String,
    tool_call: ToolCall,
    plan: Plan,
    items: Seq<AcpConversationItem>,
)
    ensures
        (AcpConversationItem::UserMessage { markdown })@ == (ItemView::Message {
            speaker: Speaker::User,
            markdown: markdown@,
        }),
        (AcpConversationItem::AgentMessage { markdown })@ == (ItemView::Message {
            speaker: Speaker::Agent,
            markdown: markdown@,
        }),
        (AcpConversationItem::AgentThought { markdown })@ == (ItemView::Message {
            speaker: Speaker::Thought,
            markdown: markdown@,
        }),
        AcpConversationItem::ToolCall(tool_call)@ == ItemView::ToolCall(tool_call@),
        AcpConversationItem::Plan(plan)@ == ItemView::Plan(plan),
        item_views(items).len() == items.len(),
        forall|i: int| 0 <= i < items.len() ==> #[trigger] item_views(items)[i] == items[i]@,
{
}

/// The view of a conversation holds every part of it.
pub proof fn law_conversation_views_are_faithful<C>(conversation: AcpConversation<C>)
    ensures
        conversation@.connection == conversation.connection,
        conversation@.status == conversation.status@,
        conversation@.auth_methods == conversation.auth_methods@,
        conversation@.items.len() == conversation.items@.len(),
        forall|i: int|
            0 <= i < conversation.items@.len() ==> #[trigger] conversation@.items[i]
                == conversation.items@[i]@,
        conversation.session_id is Some <==> conversation@.session_id is Some,
        conversation.session_id is Some ==> conversation@.session_id->0 == (
        conversation.session_id->0)@,
{
}

/// This client speaks version 1 of the protocol.
pub proof fn law_protocol_version()
    ensures
        PROTOCOL_VERSION == 1,
{
}

/// A handshake that created a session leaves the conversation idle in it. One
/// that did not asks for authentication where the agent advertised any way to, and
/// has failed otherwise.
pub proof fn law_how_a_handshake_ends<C>(
    conversation: ConversationView<C>,
    methods: Vec<AuthMethod>,
    created: Result<String, RequestError>,
    result: Result<Handshake, RequestError>,
)
    requires
        call_ensures(after_new_session, (methods, created), result),
    ensures
        with_handshake(conversation, result).status is Idle <==> created is Ok,
        with_handshake(conversation, result).status is NeedsAuthentication <==> created is Err
            && methods@.len() > 0,
        with_handshake(conversation, result).status is Failed <==> created is Err && methods@.len()
            == 0,
        created is Ok ==> with_handshake(conversation, result).session_id == Some(
            (created->Ok_0)@,
        ),
        created is Ok || methods@.len() > 0 ==> with_handshake(conversation, result).auth_methods
            == methods@,
        with_handshake(conversation, result).items == conversation.items,
{
}

} // verus!
