//! Produces the response stream of one prompt turn.
//!
//! [`AcpTurn`] decides; the embedding application performs. It sends the prompt,
//! then hands in what happens and performs the [`TurnAction`] that comes back:
//! session updates go through the shim while the turn is in flight, and the
//! stream is closed when the prompt resolves.

use agent_client_protocol_schema::v1 as schema;
use vstd::prelude::*;

use crate::connection::{RequestError, RequestErrorView};
use crate::ids::{is_version_4_text, random_uuid_text};
use crate::proto_shim::{
    carried_messages, finish_reason, shim_after, starts_message, update_event, AcpProtoShim,
    ShimView,
};
use crate::response::{ContentView, EventView, FinishReason, ResponseEvent};
use crate::session::{ChunkContent, ContentChunk, SessionEvent, SessionUpdate, StopReason};
use crate::text::text_eq;
use crate::wire::{prompt_request, prompt_request_of};

verus! {

/// Identifiers tying a response stream to the conversation it feeds.
#[derive(Debug, Clone, PartialEq, Eq)]
pub struct AcpStreamIds {
    /// The conversation this turn belongs to.
    pub conversation_id: String,
    /// The task that messages are appended to (the conversation's root task).
    pub task_id: String,
    /// The request id for this turn.
    pub request_id: String,
}

/// How far a turn has come.
enum TurnPhase {
    /// The prompt is in flight.
    Streaming,
    /// The prompt has resolved; updates that were already there are still taken.
    Draining { outcome: Result<StopReason, RequestError> },
    /// No more updates will come; the prompt has not resolved.
    AwaitingPrompt,
    /// The stream is closed.
    Done,
}

/// Something that happened during a turn.
pub enum TurnEvent {
    /// The prompt resolved.
    PromptResolved(Result<StopReason, RequestError>),
    /// The consumer of the stream asked to cancel the turn.
    CancelRequested,
    /// A session update arrived.
    Updated(SessionEvent),
    /// No session update is there right now.
    NothingWaiting,
    /// No session update will ever come again.
    UpdatesClosed,
}

/// What to do next.
#[derive(Debug, Clone, Copy, PartialEq, Eq)]
pub enum TurnAction {
    /// Wait for the prompt, for a request to cancel, or for a session update.
    Wait,
    /// Send `session/cancel` for the session of the turn, then [`TurnAction::Wait`].
    SendCancel,
    /// Look for a session update without waiting.
    TakeWaitingUpdate,
    /// Wait for the prompt alone.
    AwaitPrompt,
    /// Close the stream.
    Close,
}

/// The outcome of one event: what to put into the stream, if anything, and what
/// to do next.
pub struct TurnStep {
    pub output: Option<Result<ResponseEvent, RequestError>>,
    pub action: TurnAction,
}

/// One prompt turn.
pub struct AcpTurn {
    session_id: String,
    shim: AcpProtoShim,
    phase: TurnPhase,
}

/// The outcome of a prompt, its error taken by what it says.
pub open spec fn outcome_view(outcome: Result<StopReason, RequestError>) -> Result<
    StopReason,
    RequestErrorView,
> {
    match outcome {
        Ok(stop_reason) => Ok(stop_reason),
        Err(error) => Err(error@),
    }
}

/// How far a turn has come.
pub enum PhaseView {
    Streaming,
    Draining { outcome: Result<StopReason, RequestErrorView> },
    AwaitingPrompt,
    Done,
}

/// What an [`AcpTurn`] knows.
pub struct TurnView {
    pub session_id: Seq<char>,
    pub shim: ShimView,
    pub phase: PhaseView,
}

impl View for AcpTurn {
    type V = TurnView;

    closed spec fn view(&self) -> TurnView {
        TurnView {
            session_id: self.session_id@,
            shim: self.shim@,
            phase: match self.phase {
                TurnPhase::Streaming => PhaseView::Streaming,
                TurnPhase::Draining { outcome } => PhaseView::Draining {
                    outcome: outcome_view(outcome),
                },
                TurnPhase::AwaitingPrompt => PhaseView::AwaitingPrompt,
                TurnPhase::Done => PhaseView::Done,
            },
        }
    }
}

/// What goes into the stream.
pub type OutputView = Result<EventView, RequestErrorView>;

/// What an output says.
pub open spec fn output_view(output: Option<Result<ResponseEvent, RequestError>>) -> Option<
    OutputView,
> {
    match output {
        Some(Ok(event)) => Some(Ok(event@)),
        Some(Err(error)) => Some(Err(error@)),
        None => None,
    }
}

/// The output that closes the stream of a turn with this outcome.
pub open spec fn closing_output(outcome: Result<StopReason, RequestErrorView>) -> OutputView {
    match outcome {
        Ok(stop_reason) => Ok(EventView::Finished { reason: finish_reason(stop_reason) }),
        Err(error) => Err(error),
    }
}

/// What a turn does when it is in a phase and nothing has happened.
pub open spec fn phase_action(phase: PhaseView) -> TurnAction {
    match phase {
        PhaseView::Streaming => TurnAction::Wait,
        PhaseView::Draining { .. } => TurnAction::TakeWaitingUpdate,
        PhaseView::AwaitingPrompt => TurnAction::AwaitPrompt,
        PhaseView::Done => TurnAction::Close,
    }
}

/// The phase after an event.
pub open spec fn phase_after(phase: PhaseView, event: TurnEvent) -> PhaseView {
    match (phase, event) {
        (PhaseView::Streaming, TurnEvent::PromptResolved(outcome)) => PhaseView::Draining {
            outcome: outcome_view(outcome),
        },
        (PhaseView::Streaming, TurnEvent::UpdatesClosed) => PhaseView::AwaitingPrompt,
        (PhaseView::Draining { .. }, TurnEvent::NothingWaiting) => PhaseView::Done,
        (PhaseView::Draining { .. }, TurnEvent::UpdatesClosed) => PhaseView::Done,
        (PhaseView::AwaitingPrompt, TurnEvent::PromptResolved(_)) => PhaseView::Done,
        _ => phase,
    }
}

/// The session update that an event brings to the turn: one for its own session,
/// while updates are still taken.
pub open spec fn taken_update(turn: TurnView, event: TurnEvent) -> Option<SessionUpdate> {
    match event {
        TurnEvent::Updated(notice) => if notice.session_id@ == turn.session_id && (
        turn.phase is Streaming || turn.phase is Draining) {
            Some(notice.update)
        } else {
            None
        },
        _ => None,
    }
}

/// The turn after an event; `fresh_id` is for a message that the event starts.
pub open spec fn turn_after(turn: TurnView, event: TurnEvent, fresh_id: Seq<char>) -> TurnView {
    TurnView {
        session_id: turn.session_id,
        shim: match taken_update(turn, event) {
            Some(update) => shim_after(turn.shim, update, fresh_id),
            None => turn.shim,
        },
        phase: phase_after(turn.phase, event),
    }
}

/// What goes into the stream for a session update.
pub open spec fn update_output(shim: ShimView, update: SessionUpdate, fresh_id: Seq<char>) -> Option<
    OutputView,
> {
    match update_event(shim, update, fresh_id) {
        Some(event) => Some(Ok(event)),
        None => None,
    }
}

/// What goes into the stream for an event.
pub open spec fn turn_output(turn: TurnView, event: TurnEvent, fresh_id: Seq<char>) -> Option<
    OutputView,
> {
    match taken_update(turn, event) {
        Some(update) => update_output(turn.shim, update, fresh_id),
        None => match (turn.phase, event) {
            (PhaseView::Draining { outcome }, TurnEvent::NothingWaiting) => Some(
                closing_output(outcome),
            ),
            (PhaseView::Draining { outcome }, TurnEvent::UpdatesClosed) => Some(
                closing_output(outcome),
            ),
            (PhaseView::AwaitingPrompt, TurnEvent::PromptResolved(outcome)) => Some(
                closing_output(outcome_view(outcome)),
            ),
            _ => None,
        },
    }
}

/// What to do after an event.
pub open spec fn turn_action(turn: TurnView, event: TurnEvent) -> TurnAction {
    if turn.phase is Streaming && event is CancelRequested {
        TurnAction::SendCancel
    } else {
        phase_action(phase_after(turn.phase, event))
    }
}

/// The output that closes the stream of a turn with this outcome.
fn closing(shim: &AcpProtoShim, outcome: Result<StopReason, RequestError>) -> (output: Result<
    ResponseEvent,
    RequestError,
>)
    ensures
        output_view(Some(output)) == Some(closing_output(outcome_view(outcome))),
{
    match outcome {
        Ok(stop_reason) => Ok(shim.stream_finished(stop_reason)),
        Err(error) => Err(error),
    }
}

/// The start of a turn: the turn itself, the event that opens the stream, and
/// the prompt to send.
pub struct TurnStart {
    pub turn: AcpTurn,
    pub init: ResponseEvent,
    pub request: schema::PromptRequest,
}

/// Starts one prompt turn.
///
/// Cancelling it forwards `session/cancel` to the agent, which then resolves the
/// prompt as cancelled; that closes the stream.
pub fn acp_response_stream(
    session_id: String,
    prompt: Vec<schema::ContentBlock>,
    ids: AcpStreamIds,
) -> (start: TurnStart)
    ensures
        start.turn@ == (TurnView {
            session_id: session_id@,
            shim: ShimView { task_id: ids.task_id@, request_id: ids.request_id@, target: None },
            phase: PhaseView::Streaming,
        }),
        start.init@ == (EventView::Init {
            conversation_id: ids.conversation_id@,
            request_id: ids.request_id@,
            run_id: seq![],
        }),
        start.request == prompt_request_of(session_id@, prompt@),
{
    let shim = AcpProtoShim::new(ids.task_id, ids.request_id);
    let init = shim.stream_init(ids.conversation_id);
    let request = prompt_request(session_id.clone(), prompt);
    TurnStart { turn: AcpTurn { session_id, shim, phase: TurnPhase::Streaming }, init, request }
}

impl AcpTurn {
    /// The session that the turn belongs to.
    pub fn session_id(&self) -> (session_id: &str)
        ensures
            session_id@ == self@.session_id,
    {
        self.session_id.as_str()
    }

    /// What to do while nothing has happened.
    pub fn action(&self) -> (action: TurnAction)
        ensures
            action == phase_action(self@.phase),
    {
        match &self.phase {
            TurnPhase::Streaming => TurnAction::Wait,
            TurnPhase::Draining { .. } => TurnAction::TakeWaitingUpdate,
            TurnPhase::AwaitingPrompt => TurnAction::AwaitPrompt,
            TurnPhase::Done => TurnAction::Close,
        }
    }

    /// Whether updates are still taken.
    fn takes_updates(&self) -> (taking: bool)
        ensures
            taking == (self@.phase is Streaming || self@.phase is Draining),
    {
        match &self.phase {
            TurnPhase::Streaming => true,
            TurnPhase::Draining { .. } => true,
            TurnPhase::AwaitingPrompt => false,
            TurnPhase::Done => false,
        }
    }

    /// Whether `event` starts a message of its own, which then needs a fresh id.
    pub fn needs_fresh_id(&self, event: &TurnEvent) -> (needed: bool)
        ensures
            needed == (match taken_update(self@, *event) {
                Some(update) => starts_message(self@.shim, update),
                None => false,
            }),
    {
        match event {
            TurnEvent::Updated(notice) => self.takes_updates() && text_eq(
                notice.session_id.as_str(),
                self.session_id.as_str(),
            ) && self.shim.needs_fresh_id(&notice.update),
            _ => false,
        }
    }

    /// Takes in one event. A message that it starts gets the id `fresh_id`.
    pub fn step_with_id(&mut self, event: TurnEvent, fresh_id: String) -> (step: TurnStep)
        ensures
            final(self)@ == turn_after(old(self)@, event, fresh_id@),
            output_view(step.output) == turn_output(old(self)@, event, fresh_id@),
            step.action == turn_action(old(self)@, event),
    {
        let mut phase = TurnPhase::Done;
        std::mem::swap(&mut phase, &mut self.phase);
        let mut output = None;
        let mut action = None;
        self.phase = match (phase, event) {
            (TurnPhase::Streaming, TurnEvent::PromptResolved(outcome)) => {
                // Updates that raced with the end of the turn are drained first,
                // so that trailing output is not dropped.
                TurnPhase::Draining { outcome }
            },
            (TurnPhase::Streaming, TurnEvent::CancelRequested) => {
                // The prompt will resolve and end the stream.
                action = Some(TurnAction::SendCancel);
                TurnPhase::Streaming
            },
            (TurnPhase::Streaming, TurnEvent::UpdatesClosed) => {
                // The connection is gone: the prompt has the definitive outcome.
                TurnPhase::AwaitingPrompt
            },
            (TurnPhase::Streaming, TurnEvent::Updated(notice)) => {
                output = self.mapped(notice, fresh_id);
                TurnPhase::Streaming
            },
            (TurnPhase::Draining { outcome }, TurnEvent::Updated(notice)) => {
                output = self.mapped(notice, fresh_id);
                TurnPhase::Draining { outcome }
            },
            (TurnPhase::Draining { outcome }, TurnEvent::NothingWaiting) => {
                output = Some(closing(&self.shim, outcome));
                TurnPhase::Done
            },
            (TurnPhase::Draining { outcome }, TurnEvent::UpdatesClosed) => {
                output = Some(closing(&self.shim, outcome));
                TurnPhase::Done
            },
            (TurnPhase::AwaitingPrompt, TurnEvent::PromptResolved(outcome)) => {
                output = Some(closing(&self.shim, outcome));
                TurnPhase::Done
            },
            (unchanged, _) => unchanged,
        };
        let action = match action {
            Some(action) => action,
            None => self.action(),
        };
        TurnStep { output, action }
    }

    /// Sends an update of the own session through the shim.
    fn mapped(&mut self, notice: SessionEvent, fresh_id: String) -> (output: Option<
        Result<ResponseEvent, RequestError>,
    >)
        ensures
            final(self).session_id == old(self).session_id,
            final(self).phase == old(self).phase,
            notice.session_id@ != old(self).session_id@ ==> output is None && final(self).shim
                == old(self).shim,
            notice.session_id@ == old(self).session_id@ ==> {
                &&& final(self).shim@ == shim_after(old(self).shim@, notice.update, fresh_id@)
                &&& output_view(output) == update_output(
                    old(self).shim@,
                    notice.update,
                    fresh_id@,
                )
                &&& output is Some <==> update_event(
                    old(self).shim@,
                    notice.update,
                    fresh_id@,
                ) is Some
            },
    {
        if !text_eq(notice.session_id.as_str(), self.session_id.as_str()) {
            return None;
        }
        match self.shim.map_update_with_id(notice.update, fresh_id) {
            Some(event) => Some(Ok(event)),
            None => None,
        }
    }

    /// Takes in one event. A message that it starts gets a random id.
    pub fn step(&mut self, event: TurnEvent) -> (step: TurnStep)
        ensures
            exists|fresh_id: Seq<char>|
                {
                    &&& (taken_update(old(self)@, event) matches Some(update) && starts_message(
                        old(self)@.shim,
                        update,
                    )) ==> is_version_4_text(fresh_id)
                    &&& final(self)@ == turn_after(old(self)@, event, fresh_id)
                    &&& output_view(step.output) == #[trigger] turn_output(
                        old(self)@,
                        event,
                        fresh_id,
                    )
                },
            step.action == turn_action(old(self)@, event),
    {
        let fresh_id = if self.needs_fresh_id(&event) {
            random_uuid_text()
        } else {
            String::new()
        };
        self.step_with_id(event, fresh_id)
    }
}

/// The turn after a run of events, each with the id for a message that it starts.
pub open spec fn run_turn(turn: TurnView, events: Seq<(TurnEvent, Seq<char>)>) -> TurnView
    decreases events.len(),
{
    if events.len() == 0 {
        turn
    } else {
        turn_after(run_turn(turn, events.drop_last()), events.last().0, events.last().1)
    }
}

/// What goes into the stream during a run of events.
pub open spec fn run_outputs(turn: TurnView, events: Seq<(TurnEvent, Seq<char>)>) -> Seq<OutputView>
    decreases events.len(),
{
    if events.len() == 0 {
        seq![]
    } else {
        let outputs = run_outputs(turn, events.drop_last());
        match turn_output(run_turn(turn, events.drop_last()), events.last().0, events.last().1) {
            Some(output) => outputs.push(output),
            None => outputs,
        }
    }
}

/// Whether an output closes the stream.
pub open spec fn is_closing(output: OutputView) -> bool {
    match output {
        Ok(EventView::Finished { .. }) => true,
        Ok(_) => false,
        Err(_) => true,
    }
}

/// A stream is closed at most once, and nothing comes after that. It is closed
/// exactly when the turn is done.
pub proof fn law_streams_close_once(turn: TurnView, events: Seq<(TurnEvent, Seq<char>)>)
    requires
        !(turn.phase is Done),
    ensures
        forall|i: int|
            0 <= i < run_outputs(turn, events).len() - 1 ==> !is_closing(
                #[trigger] run_outputs(turn, events)[i],
            ),
        run_turn(turn, events).phase is Done <==> run_outputs(turn, events).len() > 0 && is_closing(
            run_outputs(turn, events).last(),
        ),
    decreases events.len(),
{
    if events.len() > 0 {
        law_streams_close_once(turn, events.drop_last());
    }
}

/// Once the stream is closed, nothing more happens, whatever still arrives.
pub proof fn law_closed_streams_stay_closed(turn: TurnView, event: TurnEvent, fresh_id: Seq<char>)
    requires
        turn.phase is Done,
    ensures
        turn_after(turn, event, fresh_id) == turn,
        turn_output(turn, event, fresh_id) is None,
        turn_action(turn, event) == TurnAction::Close,
{
}

/// Updates for other sessions on the same connection do not leak into the
/// stream, and leave the turn as it is.
pub proof fn law_other_sessions_do_not_leak(
    turn: TurnView,
    notice: SessionEvent,
    fresh_id: Seq<char>,
)
    requires
        notice.session_id@ != turn.session_id,
    ensures
        turn_after(turn, TurnEvent::Updated(notice), fresh_id) == turn,
        turn_output(turn, TurnEvent::Updated(notice), fresh_id) is None,
        turn_action(turn, TurnEvent::Updated(notice)) == phase_action(turn.phase),
{
}

/// A request to cancel is forwarded to the agent while the prompt is in flight.
/// By itself it puts nothing into the stream and does not end the turn; the
/// agent's own answer then closes the stream like any other end.
pub proof fn law_cancelling_waits_for_the_agent(turn: TurnView, fresh_id: Seq<char>)
    ensures
        turn_after(turn, TurnEvent::CancelRequested, fresh_id) == turn,
        turn_output(turn, TurnEvent::CancelRequested, fresh_id) is None,
        turn_action(turn, TurnEvent::CancelRequested) == TurnAction::SendCancel
            <==> turn.phase is Streaming,
        closing_output(Ok(StopReason::Cancelled)) == Ok::<EventView, RequestErrorView>(
            EventView::Finished { reason: FinishReason::Done },
        ),
{
}

/// What session updates put into the stream of a turn for `session_id`.
pub open spec fn streamed_outputs(
    session_id: Seq<char>,
    shim: ShimView,
    notices: Seq<(SessionEvent, Seq<char>)>,
) -> Seq<OutputView>
    decreases notices.len(),
{
    if notices.len() == 0 {
        seq![]
    } else {
        let (notice, fresh_id) = notices.last();
        let outputs = streamed_outputs(session_id, shim, notices.drop_last());
        let shim = streamed_shim(session_id, shim, notices.drop_last());
        if notice.session_id@ == session_id {
            match update_output(shim, notice.update, fresh_id) {
                Some(output) => outputs.push(output),
                None => outputs,
            }
        } else {
            outputs
        }
    }
}

/// The shim of a turn for `session_id` after session updates.
pub open spec fn streamed_shim(
    session_id: Seq<char>,
    shim: ShimView,
    notices: Seq<(SessionEvent, Seq<char>)>,
) -> ShimView
    decreases notices.len(),
{
    if notices.len() == 0 {
        shim
    } else {
        let (notice, fresh_id) = notices.last();
        let shim = streamed_shim(session_id, shim, notices.drop_last());
        if notice.session_id@ == session_id {
            shim_after(shim, notice.update, fresh_id)
        } else {
            shim
        }
    }
}

/// Session updates as events of a turn.
pub open spec fn update_events(notices: Seq<(SessionEvent, Seq<char>)>) -> Seq<
    (TurnEvent, Seq<char>),
> {
    notices.map_values(|notice: (SessionEvent, Seq<char>)| (TurnEvent::Updated(notice.0), notice.1))
}

proof fn lemma_run_of_updates(turn: TurnView, notices: Seq<(SessionEvent, Seq<char>)>)
    requires
        turn.phase is Streaming || turn.phase is Draining,
    ensures
        run_turn(turn, update_events(notices)) == (TurnView {
            shim: streamed_shim(turn.session_id, turn.shim, notices),
            ..turn
        }),
        run_outputs(turn, update_events(notices)) == streamed_outputs(
            turn.session_id,
            turn.shim,
            notices,
        ),
    decreases notices.len(),
{
    if notices.len() > 0 {
        lemma_run_of_updates(turn, notices.drop_last());
        assert(update_events(notices).drop_last() =~= update_events(notices.drop_last()));
    }
}

proof fn lemma_run_in_parts(
    turn: TurnView,
    first: Seq<(TurnEvent, Seq<char>)>,
    second: Seq<(TurnEvent, Seq<char>)>,
)
    ensures
        run_turn(turn, first + second) == run_turn(run_turn(turn, first), second),
        run_outputs(turn, first + second) == run_outputs(turn, first) + run_outputs(
            run_turn(turn, first),
            second,
        ),
    decreases second.len(),
{
    if second.len() == 0 {
        assert(first + second =~= first);
        assert(run_outputs(turn, first) + run_outputs(run_turn(turn, first), second)
            =~= run_outputs(turn, first));
    } else {
        assert((first + second).drop_last() =~= first + second.drop_last());
        lemma_run_in_parts(turn, first, second.drop_last());
        assert(run_outputs(turn, first + second) =~= run_outputs(turn, first) + run_outputs(
            run_turn(turn, first),
            second,
        ));
    }
}

proof fn lemma_one_event(turn: TurnView, event: TurnEvent, fresh_id: Seq<char>)
    ensures
        run_turn(turn, seq![(event, fresh_id)]) == turn_after(turn, event, fresh_id),
        run_outputs(turn, seq![(event, fresh_id)]) == (match turn_output(turn, event, fresh_id) {
            Some(output) => seq![output],
            None => seq![],
        }),
{
    let events = seq![(event, fresh_id)];
    assert(events.drop_last() =~= seq![]);
    assert(run_turn(turn, events.drop_last()) == turn);
    assert(run_outputs(turn, events.drop_last()) =~= seq![]);
    assert(run_outputs(turn, events) =~= (match turn_output(turn, event, fresh_id) {
        Some(output) => seq![output],
        None => seq![],
    }));
}

proof fn lemma_streamed_in_parts(
    turn: TurnView,
    first: Seq<(SessionEvent, Seq<char>)>,
    second: Seq<(SessionEvent, Seq<char>)>,
)
    requires
        turn.phase is Streaming,
    ensures
        streamed_outputs(turn.session_id, turn.shim, first + second) == streamed_outputs(
            turn.session_id,
            turn.shim,
            first,
        ) + streamed_outputs(
            turn.session_id,
            streamed_shim(turn.session_id, turn.shim, first),
            second,
        ),
{
    let between = TurnView { shim: streamed_shim(turn.session_id, turn.shim, first), ..turn };
    lemma_run_of_updates(turn, first);
    lemma_run_of_updates(between, second);
    lemma_run_of_updates(turn, first + second);
    lemma_run_in_parts(turn, update_events(first), update_events(second));
    assert(update_events(first + second) =~= update_events(first) + update_events(second));
}

/// A turn whose prompt resolves puts every update of its session into the
/// stream, in order, those that arrived before the prompt resolved and those
/// that were still waiting, and then the output that closes the stream.
pub proof fn law_a_turn_streams_every_update(
    turn: TurnView,
    before: Seq<(SessionEvent, Seq<char>)>,
    outcome: Result<StopReason, RequestError>,
    after: Seq<(SessionEvent, Seq<char>)>,
)
    requires
        turn.phase is Streaming,
    ensures
        ({
            let events = update_events(before) + seq![(TurnEvent::PromptResolved(outcome), seq![])]
                + update_events(after) + seq![(TurnEvent::NothingWaiting, seq![])];
            &&& run_outputs(turn, events) == streamed_outputs(
                turn.session_id,
                turn.shim,
                before + after,
            ).push(closing_output(outcome_view(outcome)))
            &&& run_turn(turn, events).phase is Done
        }),
{
    let resolved = seq![(TurnEvent::PromptResolved(outcome), Seq::<char>::empty())];
    let nothing = seq![(TurnEvent::NothingWaiting, Seq::<char>::empty())];
    let one = update_events(before);
    let two = one + resolved;
    let three = two + update_events(after);
    let turn_one = run_turn(turn, one);
    let turn_two = run_turn(turn, two);
    let turn_three = run_turn(turn, three);
    lemma_run_of_updates(turn, before);
    lemma_run_in_parts(turn, one, resolved);
    lemma_one_event(turn_one, TurnEvent::PromptResolved(outcome), seq![]);
    lemma_run_in_parts(turn, two, update_events(after));
    lemma_run_of_updates(turn_two, after);
    lemma_run_in_parts(turn, three, nothing);
    lemma_one_event(turn_three, TurnEvent::NothingWaiting, seq![]);
    lemma_streamed_in_parts(turn, before, after);
    assert(run_outputs(turn, three + nothing) =~= streamed_outputs(
        turn.session_id,
        turn.shim,
        before + after,
    ).push(closing_output(outcome_view(outcome))));
}

/// When the update stream ends first, the turn takes its outcome from the prompt:
/// every update of its session is in the stream, in order, and then the output
/// that closes the stream.
pub proof fn law_a_lost_connection_still_closes_the_stream(
    turn: TurnView,
    before: Seq<(SessionEvent, Seq<char>)>,
    outcome: Result<StopReason, RequestError>,
)
    requires
        turn.phase is Streaming,
    ensures
        ({
            let events = update_events(before) + seq![(TurnEvent::UpdatesClosed, seq![])] + seq![
                (TurnEvent::PromptResolved(outcome), seq![]),
            ];
            &&& run_outputs(turn, events) == streamed_outputs(
                turn.session_id,
                turn.shim,
                before,
            ).push(closing_output(outcome_view(outcome)))
            &&& run_turn(turn, events).phase is Done
        }),
{
    let closed = seq![(TurnEvent::UpdatesClosed, Seq::<char>::empty())];
    let resolved = seq![(TurnEvent::PromptResolved(outcome), Seq::<char>::empty())];
    let one = update_events(before);
    let two = one + closed;
    lemma_run_of_updates(turn, before);
    lemma_run_in_parts(turn, one, closed);
    lemma_one_event(run_turn(turn, one), TurnEvent::UpdatesClosed, seq![]);
    lemma_run_in_parts(turn, two, resolved);
    lemma_one_event(run_turn(turn, two), TurnEvent::PromptResolved(outcome), seq![]);
    assert(run_outputs(turn, two + resolved) =~= streamed_outputs(
        turn.session_id,
        turn.shim,
        before,
    ).push(closing_output(outcome_view(outcome))));
}

/// The outcome with which the prompt first resolves in a run of events.
pub open spec fn first_outcome(events: Seq<(TurnEvent, Seq<char>)>) -> Option<
    Result<StopReason, RequestErrorView>,
>
    decreases events.len(),
{
    if events.len() == 0 {
        None
    } else {
        match first_outcome(events.drop_last()) {
            Some(outcome) => Some(outcome),
            None => match events.last().0 {
                TurnEvent::PromptResolved(outcome) => Some(outcome_view(outcome)),
                _ => None,
            },
        }
    }
}

proof fn lemma_phase_knows_the_outcome(turn: TurnView, events: Seq<(TurnEvent, Seq<char>)>)
    requires
        turn.phase is Streaming,
    ensures
        match run_turn(turn, events).phase {
            PhaseView::Streaming => first_outcome(events) is None,
            PhaseView::AwaitingPrompt => first_outcome(events) is None,
            PhaseView::Draining { outcome } => first_outcome(events) == Some(outcome),
            PhaseView::Done => first_outcome(events) is Some && run_outputs(turn, events).len() > 0
                && run_outputs(turn, events).last() == closing_output(first_outcome(events)->0),
        },
    decreases events.len(),
{
    if events.len() > 0 {
        lemma_phase_knows_the_outcome(turn, events.drop_last());
    }
}

/// In every run, whatever happens in whatever order, a closed stream ends with
/// the outcome with which the prompt first resolved, and a stream is not closed
/// before the prompt has resolved.
pub proof fn law_the_first_outcome_closes_the_stream(
    turn: TurnView,
    events: Seq<(TurnEvent, Seq<char>)>,
)
    requires
        turn.phase is Streaming,
    ensures
        run_turn(turn, events).phase is Done ==> {
            &&& first_outcome(events) is Some
            &&& run_outputs(turn, events).len() > 0
            &&& run_outputs(turn, events).last() == closing_output(first_outcome(events)->0)
        },
        first_outcome(events) is None ==> forall|i: int|
            0 <= i < run_outputs(turn, events).len() ==> !is_closing(
                #[trigger] run_outputs(turn, events)[i],
            ),
{
    lemma_phase_knows_the_outcome(turn, events);
    law_streams_close_once(turn, events);
}

/// While a turn takes updates, an update of its session puts something into the
/// stream exactly when the shim has an event for it, and that is this event. The
/// shim moves on with the update, and the turn stays in its phase.
pub proof fn law_own_updates_are_streamed(
    turn: TurnView,
    notice: SessionEvent,
    fresh_id: Seq<char>,
    event: EventView,
)
    requires
        notice.session_id@ == turn.session_id,
        turn.phase is Streaming || turn.phase is Draining,
    ensures
        update_event(turn.shim, notice.update, fresh_id) == Some(event) <==> turn_output(
            turn,
            TurnEvent::Updated(notice),
            fresh_id,
        ) == Some(Ok::<EventView, RequestErrorView>(event)),
        update_event(turn.shim, notice.update, fresh_id) is None <==> turn_output(
            turn,
            TurnEvent::Updated(notice),
            fresh_id,
        ) is None,
        turn_after(turn, TurnEvent::Updated(notice), fresh_id) == (TurnView {
            session_id: turn.session_id,
            shim: shim_after(turn.shim, notice.update, fresh_id),
            phase: turn.phase,
        }),
        turn_action(turn, TurnEvent::Updated(notice)) == (if turn.phase is Streaming {
            TurnAction::Wait
        } else {
            TurnAction::TakeWaitingUpdate
        }),
{
}

/// Every tool call of the session of a turn that takes updates is streamed: what
/// goes into the stream adds one message to the task of the turn, and it has the
/// id of the tool call.
pub proof fn law_tool_calls_are_streamed(
    turn: TurnView,
    notice: SessionEvent,
    fresh_id: Seq<char>,
)
    requires
        notice.session_id@ == turn.session_id,
        notice.update is ToolCall,
        turn.phase is Streaming || turn.phase is Draining,
    ensures
        ({
            let output = turn_output(turn, TurnEvent::Updated(notice), fresh_id);
            &&& output is Some
            &&& output->0 is Ok
            &&& output->0->Ok_0 is ClientActions
            &&& output->0->Ok_0->actions.len() == 1
            &&& output->0->Ok_0->actions[0] is AddMessagesToTask
            &&& output->0->Ok_0->actions[0]->AddMessagesToTask_task_id == turn.shim.task_id
            &&& output->0->Ok_0->actions[0]->messages.len() == 1
            &&& output->0->Ok_0->actions[0]->messages[0].id
                == (notice.update->ToolCall_0).tool_call_id@
        }),
{
}

/// Every text that the agent sends in the session of a turn that takes updates is
/// streamed: what goes into the stream carries exactly that text, as output or as
/// reasoning.
pub proof fn law_texts_are_streamed(
    turn: TurnView,
    session_id: String,
    text: String,
    fresh_id: Seq<char>,
)
    requires
        session_id@ == turn.session_id,
        turn.phase is Streaming || turn.phase is Draining,
    ensures
        ({
            let content = ContentChunk { content: ChunkContent::Text { text } };
            let said = turn_output(
                turn,
                TurnEvent::Updated(
                    SessionEvent { session_id, update: SessionUpdate::AgentMessageChunk(content) },
                ),
                fresh_id,
            );
            let thought = turn_output(
                turn,
                TurnEvent::Updated(
                    SessionEvent { session_id, update: SessionUpdate::AgentThoughtChunk(content) },
                ),
                fresh_id,
            );
            &&& said is Some && said->0 is Ok && said->0->Ok_0 is ClientActions
            &&& said->0->Ok_0->actions.len() == 1
            &&& carried_messages(said->0->Ok_0->actions[0]).len() == 1
            &&& carried_messages(said->0->Ok_0->actions[0])[0].message == Some(
                ContentView::AgentOutput { text: text@ },
            )
            &&& thought is Some && thought->0 is Ok && thought->0->Ok_0 is ClientActions
            &&& thought->0->Ok_0->actions.len() == 1
            &&& carried_messages(thought->0->Ok_0->actions[0]).len() == 1
            &&& carried_messages(thought->0->Ok_0->actions[0])[0].message == Some(
                ContentView::AgentReasoning { reasoning: text@ },
            )
        }),
{
}

/// The shim after the updates of one session among notices, and the events that
/// it has for them, in order.
pub open spec fn shim_run(
    session_id: Seq<char>,
    shim: ShimView,
    notices: Seq<(SessionEvent, Seq<char>)>,
) -> (ShimView, Seq<EventView>)
    decreases notices.len(),
{
    if notices.len() == 0 {
        (shim, seq![])
    } else {
        let (now, events) = shim_run(session_id, shim, notices.drop_last());
        let (notice, fresh_id) = notices.last();
        if notice.session_id@ != session_id {
            (now, events)
        } else {
            (
                shim_after(now, notice.update, fresh_id),
                match update_event(now, notice.update, fresh_id) {
                    Some(event) => events.push(event),
                    None => events,
                },
            )
        }
    }
}

proof fn lemma_shim_run(
    session_id: Seq<char>,
    shim: ShimView,
    notices: Seq<(SessionEvent, Seq<char>)>,
)
    ensures
        shim_run(session_id, shim, notices).0 == streamed_shim(session_id, shim, notices),
        streamed_outputs(session_id, shim, notices).len() == shim_run(
            session_id,
            shim,
            notices,
        ).1.len(),
        forall|i: int|
            0 <= i < shim_run(session_id, shim, notices).1.len() ==> #[trigger] streamed_outputs(
                session_id,
                shim,
                notices,
            )[i] == Ok::<EventView, RequestErrorView>(shim_run(session_id, shim, notices).1[i]),
    decreases notices.len(),
{
    if notices.len() > 0 {
        lemma_shim_run(session_id, shim, notices.drop_last());
    }
}

/// The outputs of a whole turn are, one for one and in order, the shim's events
/// for the updates of its session, those before the prompt resolved and those
/// still waiting then, followed by one that closes the stream: the end that is
/// reported for the stop reason, or the error.
pub proof fn law_a_turn_streams_the_events_of_its_session(
    turn: TurnView,
    before: Seq<(SessionEvent, Seq<char>)>,
    outcome: Result<StopReason, RequestError>,
    after: Seq<(SessionEvent, Seq<char>)>,
)
    requires
        turn.phase is Streaming,
    ensures
        ({
            let events = update_events(before) + seq![(TurnEvent::PromptResolved(outcome), seq![])]
                + update_events(after) + seq![(TurnEvent::NothingWaiting, seq![])];
            let expected = shim_run(turn.session_id, turn.shim, before + after).1;
            let outputs = run_outputs(turn, events);
            &&& outputs.len() == expected.len() + 1
            &&& forall|i: int|
                0 <= i < expected.len() ==> #[trigger] outputs[i] == Ok::<
                    EventView,
                    RequestErrorView,
                >(expected[i])
            &&& outcome is Ok ==> outputs.last() == Ok::<EventView, RequestErrorView>(
                EventView::Finished { reason: finish_reason(outcome->Ok_0) },
            )
            &&& outcome is Err ==> outputs.last() == Err::<EventView, RequestErrorView>(
                (outcome->Err_0)@,
            )
        }),
{
    law_a_turn_streams_every_update(turn, before, outcome, after);
    lemma_shim_run(turn.session_id, turn.shim, before + after);
    let expected = shim_run(turn.session_id, turn.shim, before + after).1;
    let outputs = streamed_outputs(turn.session_id, turn.shim, before + after);
    let closed = outputs.push(closing_output(outcome_view(outcome)));
    assert forall|i: int| 0 <= i < expected.len() implies #[trigger] closed[i] == Ok::<
        EventView,
        RequestErrorView,
    >(expected[i]) by {
        assert(closed[i] == outputs[i]);
    }
}

/// The same holds where no more updates can come before the prompt resolves.
pub proof fn law_a_lost_connection_streams_the_events_of_its_session(
    turn: TurnView,
    before: Seq<(SessionEvent, Seq<char>)>,
    outcome: Result<StopReason, RequestError>,
)
    requires
        turn.phase is Streaming,
    ensures
        ({
            let events = update_events(before) + seq![(TurnEvent::UpdatesClosed, seq![])] + seq![
                (TurnEvent::PromptResolved(outcome), seq![]),
            ];
            let expected = shim_run(turn.session_id, turn.shim, before).1;
            let outputs = run_outputs(turn, events);
            &&& outputs.len() == expected.len() + 1
            &&& forall|i: int|
                0 <= i < expected.len() ==> #[trigger] outputs[i] == Ok::<
                    EventView,
                    RequestErrorView,
                >(expected[i])
            &&& outcome is Ok ==> outputs.last() == Ok::<EventView, RequestErrorView>(
                EventView::Finished { reason: finish_reason(outcome->Ok_0) },
            )
            &&& outcome is Err ==> outputs.last() == Err::<EventView, RequestErrorView>(
                (outcome->Err_0)@,
            )
        }),
{
    law_a_lost_connection_still_closes_the_stream(turn, before, outcome);
    lemma_shim_run(turn.session_id, turn.shim, before);
    let expected = shim_run(turn.session_id, turn.shim, before).1;
    let outputs = streamed_outputs(turn.session_id, turn.shim, before);
    let closed = outputs.push(closing_output(outcome_view(outcome)));
    assert forall|i: int| 0 <= i < expected.len() implies #[trigger] closed[i] == Ok::<
        EventView,
        RequestErrorView,
    >(expected[i]) by {
        assert(closed[i] == outputs[i]);
    }
}

/// While the prompt is in flight, its end starts the draining, the end of the
/// updates leaves only the prompt to wait for, and nothing but an update puts
/// anything into the stream.
pub proof fn law_a_streaming_turn(
    turn: TurnView,
    stop_reason: StopReason,
    error: RequestError,
    event: TurnEvent,
    fresh_id: Seq<char>,
)
    requires
        turn.phase is Streaming,
    ensures
        turn_after(turn, TurnEvent::PromptResolved(Ok(stop_reason)), fresh_id) == (TurnView {
            session_id: turn.session_id,
            shim: turn.shim,
            phase: PhaseView::Draining { outcome: Ok(stop_reason) },
        }),
        turn_after(turn, TurnEvent::PromptResolved(Err(error)), fresh_id) == (TurnView {
            session_id: turn.session_id,
            shim: turn.shim,
            phase: PhaseView::Draining { outcome: Err(error@) },
        }),
        event is PromptResolved ==> turn_action(turn, event) == TurnAction::TakeWaitingUpdate,
        turn_after(turn, TurnEvent::UpdatesClosed, fresh_id) == (TurnView {
            session_id: turn.session_id,
            shim: turn.shim,
            phase: PhaseView::AwaitingPrompt,
        }),
        event is UpdatesClosed ==> turn_action(turn, event) == TurnAction::AwaitPrompt,
        event is NothingWaiting || event is CancelRequested ==> turn_after(turn, event, fresh_id)
            == turn,
        event is NothingWaiting ==> turn_action(turn, event) == TurnAction::Wait,
        event is CancelRequested ==> turn_action(turn, event) == TurnAction::SendCancel,
        !(event is Updated) ==> turn_output(turn, event, fresh_id) is None,
{
}

/// While the waiting updates are drained, the turn ends once there are no more of
/// them, with the outcome that the prompt had; nothing else but an update has any
/// effect.
pub proof fn law_a_draining_turn(
    turn: TurnView,
    outcome: Result<StopReason, RequestErrorView>,
    event: TurnEvent,
    fresh_id: Seq<char>,
)
    requires
        turn.phase == (PhaseView::Draining { outcome }),
    ensures
        event is NothingWaiting || event is UpdatesClosed ==> {
            &&& turn_after(turn, event, fresh_id) == (TurnView {
                session_id: turn.session_id,
                shim: turn.shim,
                phase: PhaseView::Done,
            })
            &&& turn_action(turn, event) == TurnAction::Close
            &&& outcome is Ok ==> turn_output(turn, event, fresh_id) == Some(
                Ok::<EventView, RequestErrorView>(
                    EventView::Finished { reason: finish_reason(outcome->Ok_0) },
                ),
            )
            &&& outcome is Err ==> turn_output(turn, event, fresh_id) == Some(
                Err::<EventView, RequestErrorView>(outcome->Err_0),
            )
        },
        event is PromptResolved || event is CancelRequested ==> {
            &&& turn_after(turn, event, fresh_id) == turn
            &&& turn_output(turn, event, fresh_id) is None
            &&& turn_action(turn, event) == TurnAction::TakeWaitingUpdate
        },
{
}

/// While only the prompt is waited for, the turn ends when it resolves, with its
/// outcome, and nothing else has any effect.
pub proof fn law_a_turn_that_awaits_the_prompt(
    turn: TurnView,
    outcome: Result<StopReason, RequestError>,
    event: TurnEvent,
    fresh_id: Seq<char>,
)
    requires
        turn.phase is AwaitingPrompt,
    ensures
        event == TurnEvent::PromptResolved(outcome) ==> {
            &&& turn_after(turn, event, fresh_id) == (TurnView {
                session_id: turn.session_id,
                shim: turn.shim,
                phase: PhaseView::Done,
            })
            &&& turn_action(turn, event) == TurnAction::Close
            &&& outcome is Ok ==> turn_output(turn, event, fresh_id) == Some(
                Ok::<EventView, RequestErrorView>(
                    EventView::Finished { reason: finish_reason(outcome->Ok_0) },
                ),
            )
            &&& outcome is Err ==> turn_output(turn, event, fresh_id) == Some(
                Err::<EventView, RequestErrorView>((outcome->Err_0)@),
            )
        },
        !(event is PromptResolved) ==> {
            &&& turn_after(turn, event, fresh_id) == turn
            &&& turn_output(turn, event, fresh_id) is None
            &&& turn_action(turn, event) == TurnAction::AwaitPrompt
        },
{
}

/// Before anything happens, a turn waits for what its phase needs.
pub proof fn law_phases_say_what_to_wait_for(outcome: Result<StopReason, RequestErrorView>)
    ensures
        phase_action(PhaseView::Streaming) == TurnAction::Wait,
        phase_action(PhaseView::Draining { outcome }) == TurnAction::TakeWaitingUpdate,
        phase_action(PhaseView::AwaitingPrompt) == TurnAction::AwaitPrompt,
        phase_action(PhaseView::Done) == TurnAction::Close,
{
}

/// What is said of an outcome or an output is said of the value itself.
pub proof fn law_output_views_are_faithful(
    stop_reason: StopReason,
    error: RequestError,
    event: ResponseEvent,
)
    ensures
        outcome_view(Ok(stop_reason)) == Ok::<StopReason, RequestErrorView>(stop_reason),
        outcome_view(Err(error)) == Err::<StopReason, RequestErrorView>(error@),
        output_view(Some(Ok(event))) == Some(Ok::<EventView, RequestErrorView>(event@)),
        output_view(Some(Err(error))) == Some(Err::<EventView, RequestErrorView>(error@)),
        output_view(None) is None,
{
}

/// Only an update of the own session can start a message, and only while updates
/// are taken.
pub proof fn law_which_updates_are_taken(turn: TurnView, notice: SessionEvent, event: TurnEvent)
    ensures
        notice.session_id@ == turn.session_id && (turn.phase is Streaming || turn.phase is Draining)
            ==> taken_update(turn, TurnEvent::Updated(notice)) == Some(notice.update),
        notice.session_id@ != turn.session_id || turn.phase is AwaitingPrompt || turn.phase is Done
            ==> taken_update(turn, TurnEvent::Updated(notice)) is None,
        !(event is Updated) ==> taken_update(turn, event) is None,
{
}

} // verus!
