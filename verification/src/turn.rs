//! The decisions of one conversation turn, as a state machine: the caller
//! performs each action (loading, appending, invoking the model driver) and
//! reports its outcome back as an event. User input is appended before the
//! model is invoked; a failed invocation leaves the user event in place and
//! appends nothing; a successful invocation's events are appended in the
//! order the driver returned them.
use vstd::prelude::*;

use crate::conversation::event::{ConversationEvent, ConversationEventKind, ModelEvent, UserContent};
use crate::conversation::UserPrompt;
use crate::identifier::ConversationId;
use crate::model_driver::ModelDriverError;
use crate::persistence::StoreError;

verus! {

/// A request to take one turn in a conversation: an existing conversation,
/// or a new one when none is named, and the user's prompt.
pub struct TurnRequest {
    pub conversation_id: Option<ConversationId>,
    pub user_prompt: UserPrompt,
}

/// Why a turn failed.
#[derive(Debug)]
pub enum TurnFailure {
    Store(StoreError),
    Driver(ModelDriverError),
    UnexpectedEvent,
}

/// What the caller reports after performing an action.
pub enum TurnEvent {
    /// The named conversation was loaded and is valid, or why not.
    ConversationChecked(Result<(), StoreError>),
    /// The conversation identifier was shown to the user.
    ConversationReported,
    /// The user event was appended, or why not.
    UserEventAppended(Result<ConversationEvent, StoreError>),
    /// The conversation with the new user event was loaded, or why not.
    ConversationLoaded(Result<(), StoreError>),
    /// The model driver returned events, or failed.
    ModelInvoked(Result<Vec<ConversationEventKind>, ModelDriverError>),
    /// A returned event was appended, or why not.
    ModelEventAppended(Result<ConversationEvent, StoreError>),
}

/// What the caller is asked to do next.
pub enum TurnAction {
    /// Load the named conversation to check that it exists and is valid.
    CheckConversation(ConversationId),
    /// Show the user which conversation the turn belongs to.
    ReportConversation(ConversationId),
    /// Append the user's input to the conversation.
    AppendUserEvent(ConversationId, ConversationEventKind),
    /// Load the conversation, user input included.
    LoadConversation(ConversationId),
    /// Invoke the model driver with the loaded conversation.
    InvokeModel(ConversationId),
    /// Append one event the model driver returned.
    AppendModelEvent(ConversationId, ConversationEventKind),
    /// The turn is complete; these model events were appended, in order.
    Finish(Vec<ModelEvent>),
    /// The turn failed.
    Fail(TurnFailure),
    /// The turn has already ended; nothing more is done.
    Halt,
}

/// The text of a user event made of one text part.
pub open spec fn user_text(kind: ConversationEventKind) -> Option<Seq<char>> {
    match kind {
        ConversationEventKind::User { content } => if content@.len() == 1 {
            match content@[0] {
                UserContent::Text(text) => Some(text@),
            }
        } else {
            None
        },
        _ => None,
    }
}

/// The model event an appended event carries, if it is a model event.
pub open spec fn model_event_of(kind: ConversationEventKind) -> Seq<ModelEvent> {
    match kind {
        ConversationEventKind::Model { event, .. } => seq![event],
        _ => Seq::empty(),
    }
}

/// Where a turn stands.
pub enum TurnPhaseView {
    Checking { id: ConversationId, prompt: Seq<char> },
    Reporting { id: ConversationId, prompt: Seq<char> },
    AppendingUser { id: ConversationId },
    Loading { id: ConversationId },
    Invoking { id: ConversationId },
    AppendingModel { id: ConversationId, pending: Seq<ConversationEventKind>, appended: Seq<ModelEvent> },
    Finished,
    Failed,
}

/// An outcome as the turn sees it.
pub enum TurnEventView {
    ConversationChecked(bool),
    ConversationReported,
    UserEventAppended(bool),
    ConversationLoaded(bool),
    ModelInvoked(Option<Seq<ConversationEventKind>>),
    ModelEventAppended(Option<ConversationEventKind>),
}

/// An action as the turn sees it.
pub enum TurnActionView {
    Check(ConversationId),
    Report(ConversationId),
    AppendUser(ConversationId, Option<Seq<char>>),
    Load(ConversationId),
    Invoke(ConversationId),
    AppendModel(ConversationId, ConversationEventKind),
    Finish(Seq<ModelEvent>),
    Fail,
    Halt,
}

impl View for TurnEvent {
    type V = TurnEventView;

    open spec fn view(&self) -> TurnEventView {
        match self {
            TurnEvent::ConversationChecked(result) => TurnEventView::ConversationChecked(result is Ok),
            TurnEvent::ConversationReported => TurnEventView::ConversationReported,
            TurnEvent::UserEventAppended(result) => TurnEventView::UserEventAppended(result is Ok),
            TurnEvent::ConversationLoaded(result) => TurnEventView::ConversationLoaded(result is Ok),
            TurnEvent::ModelInvoked(result) => TurnEventView::ModelInvoked(
                match result {
                    Ok(kinds) => Some(kinds@),
                    Err(_) => None,
                },
            ),
            TurnEvent::ModelEventAppended(result) => TurnEventView::ModelEventAppended(
                match result {
                    Ok(event) => Some(event.kind),
                    Err(_) => None,
                },
            ),
        }
    }
}

impl View for TurnAction {
    type V = TurnActionView;

    open spec fn view(&self) -> TurnActionView {
        match self {
            TurnAction::CheckConversation(id) => TurnActionView::Check(*id),
            TurnAction::ReportConversation(id) => TurnActionView::Report(*id),
            TurnAction::AppendUserEvent(id, kind) => TurnActionView::AppendUser(*id, user_text(*kind)),
            TurnAction::LoadConversation(id) => TurnActionView::Load(*id),
            TurnAction::InvokeModel(id) => TurnActionView::Invoke(*id),
            TurnAction::AppendModelEvent(id, kind) => TurnActionView::AppendModel(*id, *kind),
            TurnAction::Finish(events) => TurnActionView::Finish(events@),
            TurnAction::Fail(_) => TurnActionView::Fail,
            TurnAction::Halt => TurnActionView::Halt,
        }
    }
}

/// One step of a turn: where it goes and what it asks for, given where it
/// stands and the outcome of the last action. An outcome that does not
/// answer the last action fails the turn; an ended turn stays ended.
pub open spec fn step_spec(phase: TurnPhaseView, event: TurnEventView) -> (TurnPhaseView, TurnActionView) {
    match phase {
        TurnPhaseView::Finished => (TurnPhaseView::Finished, TurnActionView::Halt),
        TurnPhaseView::Failed => (TurnPhaseView::Failed, TurnActionView::Halt),
        TurnPhaseView::Checking { id, prompt } => match event {
            TurnEventView::ConversationChecked(true) => (
                TurnPhaseView::Reporting { id, prompt },
                TurnActionView::Report(id),
            ),
            _ => (TurnPhaseView::Failed, TurnActionView::Fail),
        },
        TurnPhaseView::Reporting { id, prompt } => match event {
            TurnEventView::ConversationReported => (
                TurnPhaseView::AppendingUser { id },
                TurnActionView::AppendUser(id, Some(prompt)),
            ),
            _ => (TurnPhaseView::Failed, TurnActionView::Fail),
        },
        TurnPhaseView::AppendingUser { id } => match event {
            TurnEventView::UserEventAppended(true) => (
                TurnPhaseView::Loading { id },
                TurnActionView::Load(id),
            ),
            _ => (TurnPhaseView::Failed, TurnActionView::Fail),
        },
        TurnPhaseView::Loading { id } => match event {
            TurnEventView::ConversationLoaded(true) => (
                TurnPhaseView::Invoking { id },
                TurnActionView::Invoke(id),
            ),
            _ => (TurnPhaseView::Failed, TurnActionView::Fail),
        },
        TurnPhaseView::Invoking { id } => match event {
            TurnEventView::ModelInvoked(Some(kinds)) => if kinds.len() == 0 {
                (TurnPhaseView::Finished, TurnActionView::Finish(Seq::empty()))
            } else {
                (
                    TurnPhaseView::AppendingModel {
                        id,
                        pending: kinds.drop_first(),
                        appended: Seq::empty(),
                    },
                    TurnActionView::AppendModel(id, kinds[0]),
                )
            },
            _ => (TurnPhaseView::Failed, TurnActionView::Fail),
        },
        TurnPhaseView::AppendingModel { id, pending, appended } => match event {
            TurnEventView::ModelEventAppended(Some(kind)) => {
                let appended = appended + model_event_of(kind);
                if pending.len() == 0 {
                    (TurnPhaseView::Finished, TurnActionView::Finish(appended))
                } else {
                    (
                        TurnPhaseView::AppendingModel { id, pending: pending.drop_first(), appended },
                        TurnActionView::AppendModel(id, pending[0]),
                    )
                }
            },
            _ => (TurnPhaseView::Failed, TurnActionView::Fail),
        },
    }
}

/// Whether `event` is the kind of outcome that the action asked for in
/// `phase` reports (an ended turn takes any outcome).
pub open spec fn answers(phase: TurnPhaseView, event: TurnEventView) -> bool {
    match phase {
        TurnPhaseView::Checking { .. } => event is ConversationChecked,
        TurnPhaseView::Reporting { .. } => event is ConversationReported,
        TurnPhaseView::AppendingUser { .. } => event is UserEventAppended,
        TurnPhaseView::Loading { .. } => event is ConversationLoaded,
        TurnPhaseView::Invoking { .. } => event is ModelInvoked,
        TurnPhaseView::AppendingModel { .. } => event is ModelEventAppended,
        TurnPhaseView::Finished => true,
        TurnPhaseView::Failed => true,
    }
}

/// Where a turn stands after the outcomes `events`, starting from `start`,
/// and the actions it asked for, one per outcome.
pub open spec fn run_spec(start: TurnPhaseView, events: Seq<TurnEventView>) -> (TurnPhaseView, Seq<
    TurnActionView,
>)
    decreases events.len(),
{
    if events.len() == 0 {
        (start, Seq::empty())
    } else {
        let (phase, actions) = run_spec(start, events.drop_last());
        let (next, action) = step_spec(phase, events.last());
        (next, actions.push(action))
    }
}

/// Where a turn stands right after it starts.
pub open spec fn is_start_phase(phase: TurnPhaseView) -> bool {
    phase is Checking || phase is Reporting
}

/// The actions of a run are one per outcome, and each is the step taken
/// from where the run stood before that outcome.
proof fn lemma_run_step(start: TurnPhaseView, events: Seq<TurnEventView>, i: int)
    requires
        0 <= i < events.len(),
    ensures
        run_spec(start, events).1.len() == events.len(),
        run_spec(start, events).1[i] == step_spec(run_spec(start, events.take(i)).0, events[i]).1,
        run_spec(start, events.take(i + 1)).0 == step_spec(run_spec(start, events.take(i)).0, events[i]).0,
    decreases events.len(),
{
    let shorter = events.drop_last();
    if i == events.len() - 1 {
        assert(shorter =~= events.take(i));
        assert(events.take(i + 1) =~= events);
        lemma_run_length(start, shorter);
    } else {
        lemma_run_step(start, shorter, i);
        assert(shorter.take(i) =~= events.take(i));
        assert(shorter.take(i + 1) =~= events.take(i + 1));
    }
}

proof fn lemma_run_length(start: TurnPhaseView, events: Seq<TurnEventView>)
    ensures
        run_spec(start, events).1.len() == events.len(),
    decreases events.len(),
{
    if events.len() > 0 {
        lemma_run_length(start, events.drop_last());
    }
}

/// User input precedes invocation: in every run of a turn, the model is
/// invoked only after the user's prompt was appended to the same
/// conversation and the append succeeded (two steps earlier, with the
/// conversation loaded in between).
pub proof fn lemma_user_input_precedes_invocation(
    start: TurnPhaseView,
    events: Seq<TurnEventView>,
    k: int,
    id: ConversationId,
)
    requires
        is_start_phase(start),
        0 <= k < events.len(),
        run_spec(start, events).1[k] == TurnActionView::Invoke(id),
    ensures
        k >= 2,
        run_spec(start, events).1[k - 2] matches TurnActionView::AppendUser(user_id, Some(_))
            && user_id == id,
        events[k - 1] == TurnEventView::UserEventAppended(true),
        events[k] == TurnEventView::ConversationLoaded(true),
{
    lemma_run_step(start, events, k);
    let before_k = run_spec(start, events.take(k)).0;
    assert(before_k == TurnPhaseView::Loading { id });
    if k == 0 {
        assert(events.take(0) =~= Seq::<TurnEventView>::empty());
    }
    assert(k >= 1);
    lemma_run_step(start, events, k - 1);
    assert(events.take(k - 1 + 1) =~= events.take(k));
    let before_k1 = run_spec(start, events.take(k - 1)).0;
    assert(before_k1 == TurnPhaseView::AppendingUser { id });
    if k == 1 {
        assert(events.take(0) =~= Seq::<TurnEventView>::empty());
    }
    assert(k >= 2);
    lemma_run_step(start, events, k - 2);
    assert(events.take(k - 2 + 1) =~= events.take(k - 1));
}

/// An ended turn stays ended: once a run has failed, every later action
/// is `Halt`.
proof fn lemma_failed_stays_failed(start: TurnPhaseView, events: Seq<TurnEventView>, from: int, m: int)
    requires
        0 <= from <= m < events.len(),
        run_spec(start, events.take(from)).0 == TurnPhaseView::Failed,
    ensures
        run_spec(start, events).1[m] == TurnActionView::Halt,
        run_spec(start, events.take(m + 1)).0 == TurnPhaseView::Failed,
    decreases m - from,
{
    lemma_run_step(start, events, m);
    if m > from {
        lemma_failed_stays_failed(start, events, from, m - 1);
        assert(events.take(m - 1 + 1) =~= events.take(m));
    }
}

/// A failed invocation appends nothing: once the model driver reports a
/// failure for an invocation, the run asks for no further append (the
/// user's event, appended before, stays in the log).
pub proof fn lemma_failed_invocation_appends_nothing(
    start: TurnPhaseView,
    events: Seq<TurnEventView>,
    k: int,
    id: ConversationId,
)
    requires
        is_start_phase(start),
        0 <= k,
        k + 1 < events.len(),
        run_spec(start, events).1[k] == TurnActionView::Invoke(id),
        events[k + 1] == TurnEventView::ModelInvoked(None),
    ensures
        run_spec(start, events).1[k + 1] == TurnActionView::Fail,
        forall|m: int| k + 1 < m < events.len() ==> #[trigger] run_spec(start, events).1[m]
            == TurnActionView::Halt,
{
    lemma_run_step(start, events, k);
    lemma_run_step(start, events, k + 1);
    assert(events.take(k + 1 + 1) =~= events.take(k + 2));
    assert forall|m: int| k + 1 < m < events.len() implies #[trigger] run_spec(start, events).1[m]
        == TurnActionView::Halt by {
        lemma_failed_stays_failed(start, events, k + 2, m);
    }
}

proof fn lemma_appends_follow_returned_order(
    start: TurnPhaseView,
    events: Seq<TurnEventView>,
    k: int,
    id: ConversationId,
    kinds: Seq<ConversationEventKind>,
    i: int,
)
    requires
        is_start_phase(start),
        0 <= k,
        0 <= i < kinds.len(),
        k + 1 + i < events.len(),
        run_spec(start, events).1[k] == TurnActionView::Invoke(id),
        events[k + 1] == TurnEventView::ModelInvoked(Some(kinds)),
        forall|j: int| 1 <= j <= i ==> #[trigger] events[k + 1 + j] is ModelEventAppended
            && events[k + 1 + j]->ModelEventAppended_0 is Some,
    ensures
        run_spec(start, events).1[k + 1 + i] == TurnActionView::AppendModel(id, kinds[i]),
        run_spec(start, events.take(k + 2 + i)).0 matches TurnPhaseView::AppendingModel {
            id: phase_id,
            pending,
            ..
        } && phase_id == id && pending == kinds.skip(i + 1),
    decreases i,
{
    lemma_run_step(start, events, k);
    lemma_run_step(start, events, k + 1 + i);
    if i == 0 {
        lemma_run_step(start, events, k + 1);
        assert(events.take(k + 1 + 1) =~= events.take(k + 2));
        assert(kinds.drop_first() =~= kinds.skip(1));
    } else {
        lemma_appends_follow_returned_order(start, events, k, id, kinds, i - 1);
        assert(events.take(k + 2 + (i - 1)) =~= events.take(k + 1 + i));
        assert(events.take(k + 1 + i + 1) =~= events.take(k + 2 + i));
        assert(events[k + 1 + i] is ModelEventAppended);
        assert(kinds.skip(i) =~= kinds.skip(i).take(1) + kinds.skip(i + 1));
        assert(kinds.skip(i)[0] == kinds[i]);
        assert(kinds.skip(i).drop_first() =~= kinds.skip(i + 1));
    }
}

/// Returned events are appended in order: after the model driver returns
/// `kinds` for an invocation, and as long as each append succeeds, the
/// run asks to append `kinds[0]`, `kinds[1]`, ... to the same
/// conversation, one per step.
pub proof fn lemma_returned_events_appended_in_order(
    start: TurnPhaseView,
    events: Seq<TurnEventView>,
    k: int,
    id: ConversationId,
    kinds: Seq<ConversationEventKind>,
    i: int,
)
    requires
        is_start_phase(start),
        0 <= k,
        0 <= i < kinds.len(),
        k + 1 + i < events.len(),
        run_spec(start, events).1[k] == TurnActionView::Invoke(id),
        events[k + 1] == TurnEventView::ModelInvoked(Some(kinds)),
        forall|j: int| 1 <= j <= i ==> #[trigger] events[k + 1 + j] is ModelEventAppended
            && events[k + 1 + j]->ModelEventAppended_0 is Some,
    ensures
        run_spec(start, events).1[k + 1 + i] == TurnActionView::AppendModel(id, kinds[i]),
{
    lemma_appends_follow_returned_order(start, events, k, id, kinds, i);
}

/// The model events that events of the kinds `kinds` carry, in order.
pub open spec fn model_events_of(kinds: Seq<ConversationEventKind>) -> Seq<ModelEvent>
    decreases kinds.len(),
{
    if kinds.len() == 0 {
        Seq::empty()
    } else {
        model_events_of(kinds.drop_last()) + model_event_of(kinds.last())
    }
}

proof fn lemma_appending_tracks_returned_events(
    start: TurnPhaseView,
    events: Seq<TurnEventView>,
    k: int,
    id: ConversationId,
    kinds: Seq<ConversationEventKind>,
    i: int,
)
    requires
        is_start_phase(start),
        0 <= k,
        0 <= i < kinds.len(),
        k + 1 + i < events.len(),
        run_spec(start, events).1[k] == TurnActionView::Invoke(id),
        events[k + 1] == TurnEventView::ModelInvoked(Some(kinds)),
        forall|j: int|
            1 <= j <= kinds.len() && k + 1 + j < events.len() ==> #[trigger] events[k + 1 + j]
                == TurnEventView::ModelEventAppended(Some(kinds[j - 1])),
    ensures
        run_spec(start, events.take(k + 2 + i)).0 == (TurnPhaseView::AppendingModel {
            id,
            pending: kinds.skip(i + 1),
            appended: model_events_of(kinds.take(i)),
        }),
    decreases i,
{
    lemma_run_step(start, events, k);
    if i == 0 {
        lemma_run_step(start, events, k + 1);
        assert(events.take(k + 1 + 1) =~= events.take(k + 2));
        assert(kinds.drop_first() =~= kinds.skip(1));
        assert(kinds.take(0) =~= Seq::<ConversationEventKind>::empty());
    } else {
        lemma_appending_tracks_returned_events(start, events, k, id, kinds, i - 1);
        lemma_run_step(start, events, k + 1 + i);
        assert(events.take(k + 2 + (i - 1)) =~= events.take(k + 1 + i));
        assert(events.take(k + 1 + i + 1) =~= events.take(k + 2 + i));
        assert(events[k + 1 + i] == TurnEventView::ModelEventAppended(Some(kinds[i - 1])));
        assert(kinds.skip(i)[0] == kinds[i]);
        assert(kinds.skip(i).drop_first() =~= kinds.skip(i + 1));
        assert(kinds.take(i).drop_last() =~= kinds.take(i - 1));
        assert(kinds.take(i).last() == kinds[i - 1]);
    }
}

/// A turn reports what it appended: after the model driver returns
/// `kinds` and each returned event is appended as asked, the turn
/// finishes with the model events those events carry, in the order the
/// driver returned them.
pub proof fn lemma_finish_reports_appended_events(
    start: TurnPhaseView,
    events: Seq<TurnEventView>,
    k: int,
    id: ConversationId,
    kinds: Seq<ConversationEventKind>,
)
    requires
        is_start_phase(start),
        0 <= k,
        k + 1 + kinds.len() < events.len(),
        run_spec(start, events).1[k] == TurnActionView::Invoke(id),
        events[k + 1] == TurnEventView::ModelInvoked(Some(kinds)),
        forall|j: int|
            1 <= j <= kinds.len() ==> #[trigger] events[k + 1 + j]
                == TurnEventView::ModelEventAppended(Some(kinds[j - 1])),
    ensures
        run_spec(start, events).1[k + 1 + kinds.len()] == TurnActionView::Finish(
            model_events_of(kinds),
        ),
{
    lemma_run_step(start, events, k);
    let n = kinds.len() as int;
    if n == 0 {
        lemma_run_step(start, events, k + 1);
    } else {
        lemma_appending_tracks_returned_events(start, events, k, id, kinds, n - 1);
        lemma_run_step(start, events, k + 1 + n);
        assert(events.take(k + 2 + (n - 1)) =~= events.take(k + 1 + n));
        assert(events[k + 1 + n] == TurnEventView::ModelEventAppended(Some(kinds[n - 1])));
        assert(kinds.skip(n) =~= Seq::<ConversationEventKind>::empty());
        assert(kinds.drop_last() =~= kinds.take(n - 1));
    }
}

proof fn lemma_model_events_of_models(kinds: Seq<ConversationEventKind>)
    requires
        forall|i: int| 0 <= i < kinds.len() ==> #[trigger] kinds[i] is Model,
    ensures
        model_events_of(kinds).len() == kinds.len(),
        forall|i: int|
            0 <= i < kinds.len() ==> (#[trigger] kinds[i] matches ConversationEventKind::Model {
                event,
                ..
            } && model_events_of(kinds)[i] == event),
    decreases kinds.len(),
{
    if kinds.len() > 0 {
        let rest = kinds.drop_last();
        assert forall|i: int| 0 <= i < rest.len() implies #[trigger] rest[i] is Model by {
            assert(rest[i] == kinds[i]);
        }
        lemma_model_events_of_models(rest);
        assert forall|i: int|
            0 <= i < kinds.len() implies (#[trigger] kinds[i] matches ConversationEventKind::Model {
                event,
                ..
            } && model_events_of(kinds)[i] == event) by {
            if i < rest.len() {
                assert(rest[i] == kinds[i]);
            }
        }
    }
}

/// A turn reports every model event it appended: when the model driver
/// returns model events (final answers and communications alike) and each
/// is appended as asked, the turn finishes with exactly those events, one
/// for each returned event, in the order returned.
pub proof fn lemma_finish_reports_every_model_event(
    start: TurnPhaseView,
    events: Seq<TurnEventView>,
    k: int,
    id: ConversationId,
    kinds: Seq<ConversationEventKind>,
)
    requires
        is_start_phase(start),
        0 <= k,
        k + 1 + kinds.len() < events.len(),
        run_spec(start, events).1[k] == TurnActionView::Invoke(id),
        events[k + 1] == TurnEventView::ModelInvoked(Some(kinds)),
        forall|j: int|
            1 <= j <= kinds.len() ==> #[trigger] events[k + 1 + j]
                == TurnEventView::ModelEventAppended(Some(kinds[j - 1])),
        forall|i: int| 0 <= i < kinds.len() ==> #[trigger] kinds[i] is Model,
    ensures
        run_spec(start, events).1[k + 1 + kinds.len()] matches TurnActionView::Finish(reported)
            && reported.len() == kinds.len() && forall|i: int|
            0 <= i < kinds.len() ==> (#[trigger] kinds[i] matches ConversationEventKind::Model {
                event,
                ..
            } && reported[i] == event),
{
    lemma_finish_reports_appended_events(start, events, k, id, kinds);
    lemma_model_events_of_models(kinds);
}

enum TurnPhase {
    Checking { id: ConversationId, prompt: UserPrompt },
    Reporting { id: ConversationId, prompt: UserPrompt },
    AppendingUser { id: ConversationId },
    Loading { id: ConversationId },
    Invoking { id: ConversationId },
    AppendingModel {
        id: ConversationId,
        pending: Vec<ConversationEventKind>,
        appended: Vec<ModelEvent>,
    },
    Finished,
    Failed,
}

/// One turn of a conversation.
pub struct TurnSession {
    phase: TurnPhase,
}

impl View for TurnSession {
    type V = TurnPhaseView;

    closed spec fn view(&self) -> TurnPhaseView {
        match &self.phase {
            TurnPhase::Checking { id, prompt } => TurnPhaseView::Checking { id: *id, prompt: prompt@ },
            TurnPhase::Reporting { id, prompt } => TurnPhaseView::Reporting { id: *id, prompt: prompt@ },
            TurnPhase::AppendingUser { id } => TurnPhaseView::AppendingUser { id: *id },
            TurnPhase::Loading { id } => TurnPhaseView::Loading { id: *id },
            TurnPhase::Invoking { id } => TurnPhaseView::Invoking { id: *id },
            TurnPhase::AppendingModel { id, pending, appended } => TurnPhaseView::AppendingModel {
                id: *id,
                pending: pending@,
                appended: appended@,
            },
            TurnPhase::Finished => TurnPhaseView::Finished,
            TurnPhase::Failed => TurnPhaseView::Failed,
        }
    }
}

impl UserPrompt {
    /// The user event that records this prompt: one text part.
    pub fn into_event_kind(self) -> (kind: ConversationEventKind)
        ensures
            user_text(kind) == Some(self@),
    {
        let text = self.text().to_owned();
        let mut content: Vec<UserContent> = Vec::new();
        content.push(UserContent::Text(text));
        ConversationEventKind::User { content }
    }
}

impl TurnSession {
    /// Starts a turn: an existing conversation is checked first; a new one
    /// gets a fresh identifier, which is shown right away.
    pub fn start(request: TurnRequest) -> (result: (TurnSession, TurnAction))
        ensures
            is_start_phase(result.0@),
            (match request.conversation_id {
                Some(id) => result.0@ == TurnPhaseView::Checking { id, prompt: request.user_prompt@ }
                    && result.1@ == TurnActionView::Check(id),
                None => result.0@ matches TurnPhaseView::Reporting { id, prompt } && prompt
                    == request.user_prompt@ && result.1@ == TurnActionView::Report(id),
            }),
    {
        match request.conversation_id {
            Some(id) => (
                TurnSession { phase: TurnPhase::Checking { id, prompt: request.user_prompt } },
                TurnAction::CheckConversation(id),
            ),
            None => {
                let id = ConversationId::new();
                (
                    TurnSession { phase: TurnPhase::Reporting { id, prompt: request.user_prompt } },
                    TurnAction::ReportConversation(id),
                )
            },
        }
    }

    /// Takes the outcome of the last action and decides the next one. A
    /// failed action fails the turn with that action's error.
    pub fn step(&mut self, event: TurnEvent) -> (action: TurnAction)
        ensures
            (final(self)@, action@) == step_spec(old(self)@, event@),
            (match (old(self)@, event) {
                (TurnPhaseView::Checking { .. }, TurnEvent::ConversationChecked(Err(error))) => action
                    == TurnAction::Fail(TurnFailure::Store(error)),
                (TurnPhaseView::AppendingUser { .. }, TurnEvent::UserEventAppended(Err(error))) => action
                    == TurnAction::Fail(TurnFailure::Store(error)),
                (TurnPhaseView::Loading { .. }, TurnEvent::ConversationLoaded(Err(error))) => action
                    == TurnAction::Fail(TurnFailure::Store(error)),
                (TurnPhaseView::Invoking { .. }, TurnEvent::ModelInvoked(Err(error))) => action
                    == TurnAction::Fail(TurnFailure::Driver(error)),
                (TurnPhaseView::AppendingModel { .. }, TurnEvent::ModelEventAppended(Err(error))) => action
                    == TurnAction::Fail(TurnFailure::Store(error)),
                _ => true,
            }),
            !answers(old(self)@, event@) ==> action == TurnAction::Fail(TurnFailure::UnexpectedEvent),
    {
        let mut phase = TurnPhase::Failed;
        std::mem::swap(&mut phase, &mut self.phase);
        match phase {
            TurnPhase::Finished => {
                self.phase = TurnPhase::Finished;
                TurnAction::Halt
            },
            TurnPhase::Failed => TurnAction::Halt,
            TurnPhase::Checking { id, prompt } => match event {
                TurnEvent::ConversationChecked(Ok(())) => {
                    self.phase = TurnPhase::Reporting { id, prompt };
                    TurnAction::ReportConversation(id)
                },
                TurnEvent::ConversationChecked(Err(error)) => TurnAction::Fail(
                    TurnFailure::Store(error),
                ),
                _ => TurnAction::Fail(TurnFailure::UnexpectedEvent),
            },
            TurnPhase::Reporting { id, prompt } => match event {
                TurnEvent::ConversationReported => {
                    self.phase = TurnPhase::AppendingUser { id };
                    TurnAction::AppendUserEvent(id, prompt.into_event_kind())
                },
                _ => TurnAction::Fail(TurnFailure::UnexpectedEvent),
            },
            TurnPhase::AppendingUser { id } => match event {
                TurnEvent::UserEventAppended(Ok(_)) => {
                    self.phase = TurnPhase::Loading { id };
                    TurnAction::LoadConversation(id)
                },
                TurnEvent::UserEventAppended(Err(error)) => TurnAction::Fail(
                    TurnFailure::Store(error),
                ),
                _ => TurnAction::Fail(TurnFailure::UnexpectedEvent),
            },
            TurnPhase::Loading { id } => match event {
                TurnEvent::ConversationLoaded(Ok(())) => {
                    self.phase = TurnPhase::Invoking { id };
                    TurnAction::InvokeModel(id)
                },
                TurnEvent::ConversationLoaded(Err(error)) => TurnAction::Fail(
                    TurnFailure::Store(error),
                ),
                _ => TurnAction::Fail(TurnFailure::UnexpectedEvent),
            },
            TurnPhase::Invoking { id } => match event {
                TurnEvent::ModelInvoked(Ok(kinds)) => {
                    let mut pending = kinds;
                    if pending.len() == 0 {
                        self.phase = TurnPhase::Finished;
                        TurnAction::Finish(Vec::new())
                    } else {
                        let ghost all = pending@;
                        let first = pending.remove(0);
                        assert(pending@ =~= all.drop_first());
                        let appended: Vec<ModelEvent> = Vec::new();
                        assert(appended@ =~= Seq::<ModelEvent>::empty());
                        self.phase = TurnPhase::AppendingModel { id, pending, appended };
                        TurnAction::AppendModelEvent(id, first)
                    }
                },
                TurnEvent::ModelInvoked(Err(error)) => TurnAction::Fail(TurnFailure::Driver(error)),
                _ => TurnAction::Fail(TurnFailure::UnexpectedEvent),
            },
            TurnPhase::AppendingModel { id, pending, appended } => match event {
                TurnEvent::ModelEventAppended(Ok(stored)) => {
                    let mut pending = pending;
                    let mut appended = appended;
                    let ghost before = appended@;
                    match stored.kind {
                        ConversationEventKind::Model { event, .. } => {
                            appended.push(event);
                        },
                        _ => {},
                    }
                    assert(appended@ =~= before + model_event_of(stored.kind));
                    if pending.len() == 0 {
                        self.phase = TurnPhase::Finished;
                        TurnAction::Finish(appended)
                    } else {
                        let ghost all = pending@;
                        let next = pending.remove(0);
                        assert(pending@ =~= all.drop_first());
                        self.phase = TurnPhase::AppendingModel { id, pending, appended };
                        TurnAction::AppendModelEvent(id, next)
                    }
                },
                TurnEvent::ModelEventAppended(Err(error)) => TurnAction::Fail(
                    TurnFailure::Store(error),
                ),
                _ => TurnAction::Fail(TurnFailure::UnexpectedEvent),
            },
        }
    }
}

} // verus!
