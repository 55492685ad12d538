//! Binds conversations to agent sessions.
//!
//! When a conversation is backed by an agent, its turns are served by the agent
//! process. The registry is the lookup for that. Bindings are keyed by the root
//! task id of the conversation, the one identifier of it that every request holds.

use agent_client_protocol_schema::v1 as schema;
use vstd::prelude::*;

use crate::ids::{is_version_4_text, random_uuid_text};
use crate::lines::{join_range, joined, law_joining_separates_neighbours, line_views};
use crate::proto_shim::ShimView;
use crate::response::EventView;
use crate::response_stream_driver::{
    acp_response_stream, AcpStreamIds, PhaseView, TurnStart, TurnView,
};
use crate::text_map::TextMap;
use crate::wire::{prompt_request_of, text_block, text_block_of};

verus! {

/// One conversation's link to its agent session, over a connection `C`.
#[derive(Debug, Clone, PartialEq, Eq)]
pub struct AcpBinding<C> {
    pub connection: C,
    pub session_id: String,
    /// The conversation id, which opens the response stream.
    pub conversation_id: String,
}

/// A task of a conversation.
#[derive(Debug, Clone, PartialEq, Eq)]
pub struct Task {
    pub id: String,
}

/// One input of a request.
#[derive(Debug, Clone, PartialEq, Eq)]
pub enum AIAgentInput {
    UserQuery { query: String },
    AutoCodeDiffQuery { query: String },
    ResumeConversation,
    /// Any other input; none of them holds promptable text.
    Other,
}

/// A request for a turn.
#[derive(Debug, Clone, PartialEq, Eq)]
pub struct RequestParams {
    pub tasks: Vec<Task>,
    pub input: Vec<AIAgentInput>,
}

/// Mapping of root task ids to bindings.
pub struct AcpConversationRegistry<C> {
    bindings_by_root_task: TextMap<AcpBinding<C>>,
}

impl<C> View for AcpConversationRegistry<C> {
    type V = Map<Seq<char>, AcpBinding<C>>;

    closed spec fn view(&self) -> Map<Seq<char>, AcpBinding<C>> {
        self.bindings_by_root_task@
    }
}

/// The ids of tasks.
pub open spec fn task_ids(tasks: Seq<Task>) -> Seq<Seq<char>> {
    tasks.map_values(|task: Task| task.id@)
}

/// The first of `ids` that has a binding: the root task of the conversation that
/// a request belongs to.
pub open spec fn first_bound_id<B>(bindings: Map<Seq<char>, B>, ids: Seq<Seq<char>>) -> Option<
    Seq<char>,
>
    decreases ids.len(),
{
    if ids.len() == 0 {
        None
    } else if bindings.contains_key(ids[0]) {
        Some(ids[0])
    } else {
        first_bound_id(bindings, ids.drop_first())
    }
}

/// The binding of the first of `ids` that has one.
pub open spec fn first_binding<B>(bindings: Map<Seq<char>, B>, ids: Seq<Seq<char>>) -> Option<B> {
    match first_bound_id(bindings, ids) {
        Some(id) => Some(bindings[id]),
        None => None,
    }
}

impl<C> Default for AcpConversationRegistry<C> {
    /// A registry without bindings.
    fn default() -> (registry: AcpConversationRegistry<C>)
        ensures
            registry@ == Map::<Seq<char>, AcpBinding<C>>::empty(),
    {
        AcpConversationRegistry { bindings_by_root_task: TextMap::new() }
    }
}

impl<C> AcpConversationRegistry<C> {
    /// Binds a conversation; a binding that it had is replaced.
    pub fn register(&mut self, root_task_id: String, binding: AcpBinding<C>)
        ensures
            final(self)@ == old(self)@.insert(root_task_id@, binding),
    {
        let _ = self.bindings_by_root_task.insert(root_task_id, binding);
    }

    /// Removes the binding of a conversation and gives it back.
    pub fn unregister(&mut self, root_task_id: &str) -> (binding: Option<AcpBinding<C>>)
        ensures
            final(self)@ == old(self)@.remove(root_task_id@),
            match binding {
                Some(binding) => old(self)@.contains_key(root_task_id@) && binding
                    == old(self)@[root_task_id@],
                None => !old(self)@.contains_key(root_task_id@),
            },
    {
        self.bindings_by_root_task.remove(root_task_id)
    }

    /// The place of the first of `tasks` that has a binding.
    fn bound_task(&self, tasks: &[Task]) -> (place: Option<usize>)
        ensures
            match place {
                Some(i) => {
                    &&& i < tasks@.len()
                    &&& first_bound_id(self@, task_ids(tasks@)) == Some(tasks@[i as int].id@)
                    &&& self@.contains_key(tasks@[i as int].id@)
                },
                None => first_bound_id(self@, task_ids(tasks@)) is None,
            },
    {
        let ghost ids = task_ids(tasks@);
        let mut i: usize = 0;
        assert(ids.skip(0) =~= ids);
        while i < tasks.len()
            invariant
                i <= tasks@.len(),
                ids == task_ids(tasks@),
                first_bound_id(self@, ids) == first_bound_id(self@, ids.skip(i as int)),
            decreases tasks@.len() - i,
        {
            assert(ids.skip(i as int)[0] == tasks@[i as int].id@);
            assert(ids.skip(i as int).drop_first() =~= ids.skip(i + 1));
            if self.bindings_by_root_task.contains_key(tasks[i].id.as_str()) {
                return Some(i);
            }
            i += 1;
        }
        None
    }

    /// The binding when any of the request's tasks belongs to a conversation
    /// that is backed by an agent.
    pub fn binding_for_tasks(&self, tasks: &[Task]) -> (binding: Option<&AcpBinding<C>>)
        ensures
            match binding {
                Some(binding) => first_binding(self@, task_ids(tasks@)) == Some(*binding),
                None => first_binding(self@, task_ids(tasks@)) is None,
            },
    {
        match self.bound_task(tasks) {
            Some(i) => self.bindings_by_root_task.get(tasks[i].id.as_str()),
            None => None,
        }
    }
}

/// The promptable text of an input.
pub open spec fn query_of(input: AIAgentInput) -> Option<Seq<char>> {
    match input {
        AIAgentInput::UserQuery { query } => Some(query@),
        AIAgentInput::AutoCodeDiffQuery { query } => Some(query@),
        _ => None,
    }
}

/// The promptable texts of inputs, in order.
pub open spec fn queries(inputs: Seq<AIAgentInput>) -> Seq<Seq<char>>
    decreases inputs.len(),
{
    if inputs.len() == 0 {
        seq![]
    } else {
        match query_of(inputs.last()) {
            Some(query) => queries(inputs.drop_last()).push(query),
            None => queries(inputs.drop_last()),
        }
    }
}

/// The text of the prompt for inputs: their queries, one per line.
pub open spec fn prompt_text_of(inputs: Seq<AIAgentInput>) -> Seq<char> {
    joined(queries(inputs), seq!['\n'])
}

/// Extracts the promptable text from the inputs of a request. Other inputs have
/// no representation in a prompt.
pub fn prompt_text(inputs: &[AIAgentInput]) -> (text: String)
    ensures
        text@ == prompt_text_of(inputs@),
{
    let mut texts: Vec<String> = Vec::new();
    let mut i: usize = 0;
    assert(inputs@.take(0) =~= seq![]);
    assert(line_views(texts@) =~= seq![]);
    while i < inputs.len()
        invariant
            i <= inputs@.len(),
            line_views(texts@) == queries(inputs@.take(i as int)),
        decreases inputs@.len() - i,
    {
        let ghost before = texts@;
        assert(inputs@.take(i + 1).drop_last() =~= inputs@.take(i as int));
        match &inputs[i] {
            AIAgentInput::UserQuery { query } => {
                texts.push(query.clone());
                assert(line_views(texts@) =~= line_views(before).push(query@));
            },
            AIAgentInput::AutoCodeDiffQuery { query } => {
                texts.push(query.clone());
                assert(line_views(texts@) =~= line_views(before).push(query@));
            },
            _ => {},
        }
        i += 1;
    }
    proof {
        reveal_strlit("\n");
        assert("\n"@ =~= seq!['\n']);
        assert(inputs@.take(i as int) =~= inputs@);
        assert(line_views(texts@).subrange(0, texts@.len() as int) =~= line_views(texts@));
    }
    join_range(&texts, 0, texts.len(), "\n")
}

/// The prompt for the inputs of a request: one block of text.
pub fn prompt_blocks(inputs: &[AIAgentInput]) -> (blocks: Vec<schema::ContentBlock>)
    ensures
        blocks@ == seq![text_block_of(prompt_text_of(inputs@))],
{
    let mut blocks: Vec<schema::ContentBlock> = Vec::new();
    blocks.push(text_block(prompt_text(inputs)));
    assert(blocks@ =~= seq![text_block_of(prompt_text_of(inputs@))]);
    blocks
}

/// A turn that an agent serves: the connection to serve it on, and its start.
pub struct BoundTurn<'a, C> {
    pub connection: &'a C,
    pub start: TurnStart,
}

/// Whether `turn` is the turn for a request of the conversation that is bound
/// under its root task `root`: its messages go to that task.
pub open spec fn is_turn_for<C>(
    turn: BoundTurn<'_, C>,
    root: Seq<char>,
    binding: AcpBinding<C>,
    params: RequestParams,
    request_id: Seq<char>,
) -> bool {
    &&& *turn.connection == binding.connection
    &&& turn.start.turn@ == (TurnView {
        session_id: binding.session_id@,
        shim: ShimView { task_id: root, request_id, target: None },
        phase: PhaseView::Streaming,
    })
    &&& turn.start.init@ == (EventView::Init {
        conversation_id: binding.conversation_id@,
        request_id,
        run_id: seq![],
    })
    &&& turn.start.request == prompt_request_of(
        binding.session_id@,
        seq![text_block_of(prompt_text_of(params.input@))],
    )
}

/// The turn for a request that belongs to a bound conversation, under the
/// request id `request_id`. Its messages go to the root task of the conversation,
/// wherever that stands among the tasks of the request. Other requests are not
/// for an agent.
pub fn bound_turn_with_id<'a, C>(
    registry: &'a AcpConversationRegistry<C>,
    params: &RequestParams,
    request_id: String,
) -> (turn: Option<BoundTurn<'a, C>>)
    ensures
        match first_bound_id(registry@, task_ids(params.tasks@)) {
            Some(root) => turn matches Some(turn) && is_turn_for(
                turn,
                root,
                registry@[root],
                *params,
                request_id@,
            ),
            None => turn is None,
        },
{
    let Some(place) = registry.bound_task(params.tasks.as_slice()) else {
        return None;
    };
    let root_task_id = params.tasks[place].id.clone();
    let Some(binding) = registry.bindings_by_root_task.get(root_task_id.as_str()) else {
        return None;
    };
    let start = acp_response_stream(
        binding.session_id.clone(),
        prompt_blocks(params.input.as_slice()),
        AcpStreamIds {
            conversation_id: binding.conversation_id.clone(),
            task_id: root_task_id,
            request_id,
        },
    );
    Some(BoundTurn { connection: &binding.connection, start })
}

/// The turn for a request that belongs to a bound conversation, under a random
/// request id. For other requests there is none, and they go their usual way.
pub fn try_acp_response_stream<'a, C>(
    registry: &'a AcpConversationRegistry<C>,
    params: &RequestParams,
) -> (turn: Option<BoundTurn<'a, C>>)
    ensures
        match first_bound_id(registry@, task_ids(params.tasks@)) {
            Some(root) => turn matches Some(turn) && exists|request_id: Seq<char>|
                is_version_4_text(request_id) && #[trigger] is_turn_for(
                    turn,
                    root,
                    registry@[root],
                    *params,
                    request_id,
                ),
            None => turn is None,
        },
{
    bound_turn_with_id(registry, params, random_uuid_text())
}

/// A conversation that was just bound is found by any request that holds its
/// root task and no other bound task before it.
pub proof fn law_bound_conversations_are_found<B>(
    bindings: Map<Seq<char>, B>,
    root: Seq<char>,
    binding: B,
    before: Seq<Seq<char>>,
    after: Seq<Seq<char>>,
)
    requires
        forall|i: int|
            0 <= i < before.len() ==> before[i] != root && !bindings.contains_key(
                #[trigger] before[i],
            ),
    ensures
        first_bound_id(bindings.insert(root, binding), before.push(root) + after) == Some(root),
        first_binding(bindings.insert(root, binding), before.push(root) + after) == Some(binding),
    decreases before.len(),
{
    let ids = before.push(root) + after;
    if before.len() > 0 {
        assert(ids[0] == before[0]);
        assert(ids.drop_first() =~= before.drop_first().push(root) + after);
        assert forall|i: int| 0 <= i < before.drop_first().len() implies before.drop_first()[i]
            != root && !bindings.contains_key(#[trigger] before.drop_first()[i]) by {
            assert(before.drop_first()[i] == before[i + 1]);
        }
        law_bound_conversations_are_found(bindings, root, binding, before.drop_first(), after);
    } else {
        assert(ids[0] == root);
    }
}

/// A request is for an agent exactly when one of its tasks is bound.
pub proof fn law_any_bound_task_matches<B>(bindings: Map<Seq<char>, B>, ids: Seq<Seq<char>>)
    ensures
        first_binding(bindings, ids) is Some <==> exists|i: int|
            0 <= i < ids.len() && bindings.contains_key(#[trigger] ids[i]),
    decreases ids.len(),
{
    if ids.len() > 0 && !bindings.contains_key(ids[0]) {
        let rest = ids.drop_first();
        law_any_bound_task_matches(bindings, rest);
        if exists|i: int| 0 <= i < ids.len() && bindings.contains_key(#[trigger] ids[i]) {
            let i = choose|i: int| 0 <= i < ids.len() && bindings.contains_key(#[trigger] ids[i]);
            assert(rest[i - 1] == ids[i]);
        }
        if exists|i: int| 0 <= i < rest.len() && bindings.contains_key(#[trigger] rest[i]) {
            let i = choose|i: int|
                0 <= i < rest.len() && bindings.contains_key(#[trigger] rest[i]);
            assert(ids[i + 1] == rest[i]);
        }
    }
}

/// Binding a conversation and removing the binding again leaves the bindings of
/// all other conversations as they were.
pub proof fn law_unregister_undoes_register<B>(
    bindings: Map<Seq<char>, B>,
    root: Seq<char>,
    binding: B,
)
    ensures
        bindings.insert(root, binding).remove(root) == bindings.remove(root),
        !bindings.contains_key(root) ==> bindings.insert(root, binding).remove(root) == bindings,
{
    assert(bindings.insert(root, binding).remove(root) =~= bindings.remove(root));
    if !bindings.contains_key(root) {
        assert(bindings.remove(root) =~= bindings);
    }
}

/// The ids of tasks are those of the tasks, one for one and in order.
pub proof fn law_task_ids_are_faithful(tasks: Seq<Task>)
    ensures
        task_ids(tasks).len() == tasks.len(),
        forall|i: int| 0 <= i < tasks.len() ==> #[trigger] task_ids(tasks)[i] == tasks[i].id@,
{
}

/// A request belongs to the first of its tasks that is bound, and to the binding
/// of that task; it belongs to none where no task is bound.
pub proof fn law_the_first_bound_task_counts<B>(
    bindings: Map<Seq<char>, B>,
    ids: Seq<Seq<char>>,
    at: int,
)
    ensures
        0 <= at < ids.len() && bindings.contains_key(ids[at]) && (forall|i: int|
            0 <= i < at ==> !bindings.contains_key(#[trigger] ids[i])) ==> first_bound_id(
            bindings,
            ids,
        ) == Some(ids[at]) && first_binding(bindings, ids) == Some(bindings[ids[at]]),
        (forall|i: int| 0 <= i < ids.len() ==> !bindings.contains_key(#[trigger] ids[i]))
            ==> first_bound_id(bindings, ids) is None && first_binding(bindings, ids) is None,
    decreases ids.len(),
{
    if ids.len() > 0 {
        let rest = ids.drop_first();
        law_the_first_bound_task_counts(bindings, rest, at - 1);
        assert forall|i: int| 0 <= i < rest.len() implies rest[i] == #[trigger] ids[i + 1] by {}
        if forall|i: int| 0 <= i < ids.len() ==> !bindings.contains_key(#[trigger] ids[i]) {
            assert(!bindings.contains_key(ids[0]));
            assert forall|i: int| 0 <= i < rest.len() implies !bindings.contains_key(
                #[trigger] rest[i],
            ) by {
                assert(rest[i] == ids[i + 1]);
            }
        }
        if 0 < at < ids.len() && bindings.contains_key(ids[at]) && (forall|i: int|
            0 <= i < at ==> !bindings.contains_key(#[trigger] ids[i])) {
            assert(!bindings.contains_key(ids[0]));
            assert(rest[at - 1] == ids[at]);
            assert forall|i: int| 0 <= i < at - 1 implies !bindings.contains_key(
                #[trigger] rest[i],
            ) by {
                assert(rest[i] == ids[i + 1]);
            }
        }
    }
}

/// Whether any input asks something.
pub open spec fn asks(inputs: Seq<AIAgentInput>) -> bool {
    exists|i: int|
        0 <= i < inputs.len() && ((#[trigger] inputs[i]) is UserQuery
            || inputs[i] is AutoCodeDiffQuery)
}

proof fn lemma_queries_ask(inputs: Seq<AIAgentInput>)
    ensures
        queries(inputs).len() > 0 <==> asks(inputs),
    decreases inputs.len(),
{
    if inputs.len() > 0 {
        let earlier = inputs.drop_last();
        lemma_queries_ask(earlier);
        if asks(earlier) {
            let i = choose|i: int|
                0 <= i < earlier.len() && ((#[trigger] earlier[i]) is UserQuery
                    || earlier[i] is AutoCodeDiffQuery);
            assert(inputs[i] == earlier[i]);
        }
        if asks(inputs) {
            let i = choose|i: int|
                0 <= i < inputs.len() && ((#[trigger] inputs[i]) is UserQuery
                    || inputs[i] is AutoCodeDiffQuery);
            if i < inputs.len() - 1 {
                assert(earlier[i] == inputs[i]);
            }
        }
        if inputs.last() is UserQuery || inputs.last() is AutoCodeDiffQuery {
            assert(inputs[inputs.len() - 1] is UserQuery
                || inputs[inputs.len() - 1] is AutoCodeDiffQuery);
        }
    }
}

/// The prompt grows query by query: the first query is the prompt, every further
/// one is added to it on a line of its own, exactly as it was asked, and inputs
/// that ask nothing add nothing.
pub proof fn law_prompts_hold_every_query(
    inputs: Seq<AIAgentInput>,
    query: String,
    input: AIAgentInput,
)
    ensures
        !asks(inputs) ==> prompt_text_of(inputs).len() == 0,
        !asks(inputs) ==> prompt_text_of(inputs.push(AIAgentInput::UserQuery { query })) == query@,
        asks(inputs) ==> prompt_text_of(inputs.push(AIAgentInput::UserQuery { query }))
            == prompt_text_of(inputs) + seq!['\n'] + query@,
        prompt_text_of(inputs.push(AIAgentInput::AutoCodeDiffQuery { query })) == prompt_text_of(
            inputs.push(AIAgentInput::UserQuery { query }),
        ),
        !(input is UserQuery) && !(input is AutoCodeDiffQuery) ==> prompt_text_of(
            inputs.push(input),
        ) == prompt_text_of(inputs),
{
    lemma_queries_ask(inputs);
    assert(inputs.push(input).drop_last() =~= inputs);
    assert(inputs.push(AIAgentInput::UserQuery { query }).drop_last() =~= inputs);
    assert(inputs.push(AIAgentInput::AutoCodeDiffQuery { query }).drop_last() =~= inputs);
    law_joining_separates_neighbours(queries(inputs), query@, seq!['\n']);
    if !asks(inputs) {
        assert(queries(inputs) =~= seq![]);
        assert(queries(inputs).push(query@) =~= seq![query@]);
    }
}

/// A turn for a request goes out on the connection of the binding and in its
/// session, streams into the root task, opens the stream of its conversation, and
/// sends the text of the request as one block.
pub proof fn law_turns_belong_to_their_binding<C>(
    turn: BoundTurn<'_, C>,
    root: Seq<char>,
    binding: AcpBinding<C>,
    params: RequestParams,
    request_id: Seq<char>,
)
    requires
        is_turn_for(turn, root, binding, params, request_id),
    ensures
        *turn.connection == binding.connection,
        turn.start.turn@.session_id == binding.session_id@,
        turn.start.turn@.shim.task_id == root,
        turn.start.turn@.shim.request_id == request_id,
        turn.start.turn@.shim.target is None,
        turn.start.turn@.phase is Streaming,
        turn.start.init@ is Init,
        turn.start.init@->conversation_id == binding.conversation_id@,
        turn.start.init@->request_id == request_id,
        turn.start.init@->run_id.len() == 0,
        turn.start.request == prompt_request_of(
            binding.session_id@,
            seq![text_block_of(prompt_text_of(params.input@))],
        ),
{
}

} // verus!
