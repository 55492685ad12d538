//! What an agent reports about a session while it works on a prompt.

use agent_client_protocol_schema::v1::{
    Meta, Plan, ToolCallContent, ToolCallLocation, ToolCallStatus, ToolKind,
};
use serde_json::Value;
use vstd::prelude::*;

verus! {

/// One block of content. Only the text of text blocks and the target of links
/// can be shown; the other kinds are told apart and carry nothing.
#[derive(Debug, PartialEq)]
pub enum ChunkContent {
    Text { text: String },
    ResourceLink { uri: String },
    Image,
    Audio,
    Resource,
    /// A kind of block that this client does not know.
    Other,
}

/// What a [`ChunkContent`] says.
pub enum ChunkContentView {
    Text { text: Seq<char> },
    ResourceLink { uri: Seq<char> },
    Image,
    Audio,
    Resource,
    Other,
}

impl View for ChunkContent {
    type V = ChunkContentView;

    open spec fn view(&self) -> ChunkContentView {
        match self {
            ChunkContent::Text { text } => ChunkContentView::Text { text: text@ },
            ChunkContent::ResourceLink { uri } => ChunkContentView::ResourceLink { uri: uri@ },
            ChunkContent::Image => ChunkContentView::Image,
            ChunkContent::Audio => ChunkContentView::Audio,
            ChunkContent::Resource => ChunkContentView::Resource,
            ChunkContent::Other => ChunkContentView::Other,
        }
    }
}

/// A streamed piece of content.
#[derive(Debug, PartialEq)]
pub struct ContentChunk {
    pub content: ChunkContent,
}

/// A tool call that the agent carries out.
#[derive(Debug, PartialEq)]
pub struct ToolCall {
    pub tool_call_id: String,
    pub title: String,
    pub kind: ToolKind,
    pub status: ToolCallStatus,
    pub content: Vec<ToolCallContent>,
    pub locations: Vec<ToolCallLocation>,
    pub raw_input: Option<Value>,
    pub raw_output: Option<Value>,
    pub meta: Option<Meta>,
}

/// New values for some fields of a tool call; a field that is `None` stays as it is.
#[derive(Debug, PartialEq)]
pub struct ToolCallUpdateFields {
    pub kind: Option<ToolKind>,
    pub status: Option<ToolCallStatus>,
    pub title: Option<String>,
    pub content: Option<Vec<ToolCallContent>>,
    pub locations: Option<Vec<ToolCallLocation>>,
    pub raw_input: Option<Value>,
    pub raw_output: Option<Value>,
}

/// An update of the tool call with the given id.
#[derive(Debug, PartialEq)]
pub struct ToolCallUpdate {
    pub tool_call_id: String,
    pub fields: ToolCallUpdateFields,
    pub meta: Option<Meta>,
}

/// One `session/update`.
#[derive(Debug, PartialEq)]
pub enum SessionUpdate {
    UserMessageChunk(ContentChunk),
    AgentMessageChunk(ContentChunk),
    AgentThoughtChunk(ContentChunk),
    ToolCall(ToolCall),
    ToolCallUpdate(ToolCallUpdate),
    Plan(Plan),
    AvailableCommandsUpdate,
    CurrentModeUpdate,
    ConfigOptionUpdate,
    SessionInfoUpdate,
    UsageUpdate,
    /// A kind of update that this client does not know.
    Other,
}

/// Which kind of update a [`SessionUpdate`] is.
#[derive(Debug, Clone, Copy, PartialEq, Eq)]
pub enum UpdateKind {
    UserMessageChunk,
    AgentMessageChunk,
    AgentThoughtChunk,
    ToolCall,
    ToolCallUpdate,
    Plan,
    AvailableCommandsUpdate,
    CurrentModeUpdate,
    ConfigOptionUpdate,
    SessionInfoUpdate,
    UsageUpdate,
    Other,
}

/// A `session/update` together with the session it belongs to.
#[derive(Debug, PartialEq)]
pub struct SessionEvent {
    pub session_id: String,
    pub update: SessionUpdate,
}

/// Why a prompt turn ended.
#[derive(Debug, Clone, Copy, PartialEq, Eq)]
pub enum StopReason {
    EndTurn,
    MaxTokens,
    MaxTurnRequests,
    Refusal,
    Cancelled,
    /// A reason that this client does not know.
    Other,
}

/// The text that `content` can be shown as.
pub open spec fn block_text(content: ChunkContent) -> Option<Seq<char>> {
    match content {
        ChunkContent::Text { text } => Some(text@),
        ChunkContent::ResourceLink { uri } => Some(uri@),
        _ => None,
    }
}

/// Extracts the text that a content block can be shown as, if any.
pub fn content_block_text(content: &ChunkContent) -> (text: Option<&str>)
    ensures
        match text {
            Some(t) => block_text(*content) == Some(t@),
            None => block_text(*content) is None,
        },
        *content matches ChunkContent::Text { text: shown } ==> (text matches Some(t) && t@
            == shown@),
        *content matches ChunkContent::ResourceLink { uri } ==> (text matches Some(t) && t@
            == uri@),
        !(*content is Text) && !(*content is ResourceLink) ==> text is None,
{
    match content {
        ChunkContent::Text { text } => Some(text.as_str()),
        ChunkContent::ResourceLink { uri } => Some(uri.as_str()),
        ChunkContent::Image => None,
        ChunkContent::Audio => None,
        ChunkContent::Resource => None,
        ChunkContent::Other => None,
    }
}

/// What a [`ToolCall`] says.
pub struct ToolCallView {
    pub tool_call_id: Seq<char>,
    pub title: Seq<char>,
    pub kind: ToolKind,
    pub status: ToolCallStatus,
    pub content: Seq<ToolCallContent>,
    pub locations: Seq<ToolCallLocation>,
    pub raw_input: Option<Value>,
    pub raw_output: Option<Value>,
    pub meta: Option<Meta>,
}

impl View for ToolCall {
    type V = ToolCallView;

    open spec fn view(&self) -> ToolCallView {
        ToolCallView {
            tool_call_id: self.tool_call_id@,
            title: self.title@,
            kind: self.kind,
            status: self.status,
            content: self.content@,
            locations: self.locations@,
            raw_input: self.raw_input,
            raw_output: self.raw_output,
            meta: self.meta,
        }
    }
}

/// What [`ToolCallUpdateFields`] say.
pub struct UpdateFieldsView {
    pub kind: Option<ToolKind>,
    pub status: Option<ToolCallStatus>,
    pub title: Option<Seq<char>>,
    pub content: Option<Seq<ToolCallContent>>,
    pub locations: Option<Seq<ToolCallLocation>>,
    pub raw_input: Option<Value>,
    pub raw_output: Option<Value>,
}

impl View for ToolCallUpdateFields {
    type V = UpdateFieldsView;

    open spec fn view(&self) -> UpdateFieldsView {
        UpdateFieldsView {
            kind: self.kind,
            status: self.status,
            title: match self.title {
                Some(title) => Some(title@),
                None => None,
            },
            content: match self.content {
                Some(content) => Some(content@),
                None => None,
            },
            locations: match self.locations {
                Some(locations) => Some(locations@),
                None => None,
            },
            raw_input: self.raw_input,
            raw_output: self.raw_output,
        }
    }
}

/// What a [`ToolCallUpdate`] says.
pub struct ToolCallUpdateView {
    pub tool_call_id: Seq<char>,
    pub fields: UpdateFieldsView,
    pub meta: Option<Meta>,
}

impl View for ToolCallUpdate {
    type V = ToolCallUpdateView;

    open spec fn view(&self) -> ToolCallUpdateView {
        ToolCallUpdateView {
            tool_call_id: self.tool_call_id@,
            fields: self.fields@,
            meta: self.meta,
        }
    }
}

impl Default for ToolCallUpdateFields {
    /// An update that changes nothing.
    fn default() -> (fields: ToolCallUpdateFields)
        ensures
            fields@ == (UpdateFieldsView {
                kind: None,
                status: None,
                title: None,
                content: None,
                locations: None,
                raw_input: None,
                raw_output: None,
            }),
    {
        ToolCallUpdateFields {
            kind: None,
            status: None,
            title: None,
            content: None,
            locations: None,
            raw_input: None,
            raw_output: None,
        }
    }
}

/// Every text block is shown as exactly its text and every link as exactly its
/// target, whatever they hold; no other block is shown.
pub proof fn law_blocks_are_shown_as_they_are(text: String, uri: String, content: ChunkContent)
    ensures
        block_text(ChunkContent::Text { text }) == Some(text@),
        block_text(ChunkContent::ResourceLink { uri }) == Some(uri@),
        block_text(content) is Some <==> content is Text || content is ResourceLink,
{
}

/// The view of a block tells its kind and all that it holds.
pub proof fn law_block_views_are_faithful(text: String, uri: String)
    ensures
        (ChunkContent::Text { text })@ == (ChunkContentView::Text { text: text@ }),
        (ChunkContent::ResourceLink { uri })@ == (ChunkContentView::ResourceLink { uri: uri@ }),
        ChunkContent::Image@ is Image,
        ChunkContent::Audio@ is Audio,
        ChunkContent::Resource@ is Resource,
        ChunkContent::Other@ is Other,
{
}

/// The view of a tool call holds every field of it.
pub proof fn law_tool_call_views_are_faithful(tool_call: ToolCall)
    ensures
        tool_call@.tool_call_id == tool_call.tool_call_id@,
        tool_call@.title == tool_call.title@,
        tool_call@.kind == tool_call.kind,
        tool_call@.status == tool_call.status,
        tool_call@.content == tool_call.content@,
        tool_call@.locations == tool_call.locations@,
        tool_call@.raw_input == tool_call.raw_input,
        tool_call@.raw_output == tool_call.raw_output,
        tool_call@.meta == tool_call.meta,
{
}

/// The view of a tool call update holds every field of it, given or not.
pub proof fn law_tool_call_update_views_are_faithful(update: ToolCallUpdate)
    ensures
        update@.tool_call_id == update.tool_call_id@,
        update@.meta == update.meta,
        update@.fields.kind == update.fields.kind,
        update@.fields.status == update.fields.status,
        update@.fields.raw_input == update.fields.raw_input,
        update@.fields.raw_output == update.fields.raw_output,
        update@.fields.title is Some <==> update.fields.title is Some,
        update.fields.title is Some ==> update@.fields.title->0 == (update.fields.title->0)@,
        update@.fields.content is Some <==> update.fields.content is Some,
        update.fields.content is Some ==> update@.fields.content->0 == (
        update.fields.content->0)@,
        update@.fields.locations is Some <==> update.fields.locations is Some,
        update.fields.locations is Some ==> update@.fields.locations->0 == (
        update.fields.locations->0)@,
{
}

} // verus!
