//! The rules of the conversation event log: where an event is stored, in
//! which order stored events are replayed, which position a new event
//! takes, and when a stored log is accepted as a conversation. Reading and
//! writing the files is left to the caller.
use vstd::prelude::*;
use vstd::seq_lib::group_seq_properties;

use crate::conversation::event::{ConversationEvent, ConversationEventKind};
use crate::conversation::{conversation_well_formed, event_fits, reports_first_misfit, Conversation, InvalidConversation};
use crate::identifier::{ConversationEventId, ConversationId};
use crate::text::{decimal_digits, decimal_padded, lemma_padded_u64_order, text_precedes};

verus! {

/// The schema version written with every new event.
pub const SCHEMA_VERSION: u32 = 9;

/// Calls `time::OffsetDateTime::now_utc`. The clock decides the value;
/// nothing is stated of it.
#[verifier::external_body]
fn now_utc() -> (timestamp: time::OffsetDateTime) {
    time::OffsetDateTime::now_utc()
}

/// Why the event log could not be read or extended.
#[derive(Clone, Debug, PartialEq, Eq)]
pub enum StoreError {
    InvalidConversation(InvalidConversation),
    UnexpectedConversation { loaded: ConversationId, expected: ConversationId },
    PositionOverflow,
    /// The storage could not be read or written; the description says why.
    Io(String),
}

impl StoreError {
    /// The text the error is shown as.
    pub open spec fn text_spec(&self) -> Seq<char> {
        match self {
            StoreError::InvalidConversation(error) => error.text_spec(),
            StoreError::UnexpectedConversation { loaded, expected } => "loaded "@ + loaded.text_spec()
                + ", expected "@ + expected.text_spec(),
            StoreError::PositionOverflow => "event position overflow"@,
            StoreError::Io(description) => description@,
        }
    }

    /// The text the error is shown as.
    pub fn to_string(&self) -> (text: String)
        ensures
            text@ == self.text_spec(),
    {
        match self {
            StoreError::InvalidConversation(error) => error.to_string(),
            StoreError::UnexpectedConversation { loaded, expected } => {
                let mut text = String::from_str("loaded ");
                text.append(loaded.to_string().as_str());
                text.append(", expected ");
                text.append(expected.to_string().as_str());
                text
            },
            StoreError::PositionOverflow => String::from_str("event position overflow"),
            StoreError::Io(description) => description.clone(),
        }
    }
}

/// Stored data that is not a valid conversation.
pub fn invalid_conversation_data(error: InvalidConversation) -> (store_error: StoreError)
    ensures
        store_error == StoreError::InvalidConversation(error),
{
    StoreError::InvalidConversation(error)
}

/// The position after `previous_position`, or 0 for the first event.
pub fn next_position(previous_position: Option<u64>) -> (result: Result<u64, StoreError>)
    ensures
        previous_position is None ==> result == Ok::<u64, StoreError>(0),
        previous_position matches Some(p) ==> (if p < u64::MAX {
            result == Ok::<u64, StoreError>((p + 1) as u64)
        } else {
            result == Err::<u64, StoreError>(StoreError::PositionOverflow)
        }),
{
    match previous_position {
        Some(position) => match position.checked_add(1) {
            Some(next) => Ok(next),
            None => Err(StoreError::PositionOverflow),
        },
        None => Ok(0),
    }
}

/// The file name of an event inside the events directory: its position in
/// twenty zero-padded decimal digits, a hyphen, its identifier and `.json`.
pub open spec fn event_path_spec(position: u64, identifier: Seq<char>) -> Seq<char> {
    decimal_digits(position as nat, 20) + "-"@ + identifier + ".json"@
}

/// The file name of an event inside the events directory
/// (`{position:020}-{identifier}.json`).
pub fn event_path(position: u64, identifier: &str) -> (path: String)
    ensures
        path@ == event_path_spec(position, identifier@),
{
    let mut path = decimal_padded(position, 20);
    path.append("-");
    path.append(identifier);
    path.append(".json");
    path
}

/// Event files sort in position order: the name of an event at a lower
/// position comes first in character order, whatever the identifiers.
pub proof fn lemma_event_paths_follow_positions(
    first: u64,
    first_identifier: Seq<char>,
    second: u64,
    second_identifier: Seq<char>,
)
    requires
        first < second,
    ensures
        text_precedes(
            event_path_spec(first, first_identifier),
            event_path_spec(second, second_identifier),
        ),
{
    let first_rest = "-"@ + first_identifier + ".json"@;
    let second_rest = "-"@ + second_identifier + ".json"@;
    assert(event_path_spec(first, first_identifier) =~= decimal_digits(first as nat, 20) + first_rest);
    assert(event_path_spec(second, second_identifier) =~= decimal_digits(second as nat, 20)
        + second_rest);
    lemma_padded_u64_order(first, second, first_rest, second_rest);
}

/// The event is stored at position `position`.
pub open spec fn at_position(position: u64) -> spec_fn(ConversationEvent) -> bool {
    |event: ConversationEvent| event.position == position
}

/// The events are in nondecreasing position order.
pub open spec fn ordered_by_position(events: Seq<ConversationEvent>) -> bool {
    forall|i: int, j: int| 0 <= i < j < events.len() ==> events[i].position <= events[j].position
}

proof fn lemma_insert_keeps_position_groups(
    events: Seq<ConversationEvent>,
    index: int,
    event: ConversationEvent,
    position: u64,
)
    requires
        0 <= index <= events.len(),
        forall|j: int| index <= j < events.len() ==> events[j].position > event.position,
    ensures
        events.insert(index, event).filter(at_position(position)) == if event.position
            == position {
            events.filter(at_position(position)).push(event)
        } else {
            events.filter(at_position(position))
        },
{
    broadcast use group_seq_properties;

    let pred = at_position(position);
    let front = events.take(index);
    let back = events.skip(index);
    let single = Seq::<ConversationEvent>::empty().push(event);
    assert(events.insert(index, event) =~= front + single + back);
    assert(events =~= front + back);
    Seq::filter_distributes_over_add(front + single, back, pred);
    Seq::filter_distributes_over_add(front, single, pred);
    Seq::filter_distributes_over_add(front, back, pred);
    Seq::<ConversationEvent>::empty().lemma_filter_push(event, pred);
    assert(Seq::<ConversationEvent>::empty().filter(pred) =~= Seq::<ConversationEvent>::empty()) by {
        reveal(Seq::filter);
    }
    if event.position == position {
        assert(back.all(|x: ConversationEvent| !pred(x)));
        back.lemma_all_neg_filter_empty(pred);
        assert(back.filter(pred) =~= Seq::<ConversationEvent>::empty());
        assert(front.filter(pred) + single.filter(pred) =~= front.filter(pred).push(event));
        assert(front.filter(pred) + back.filter(pred) =~= front.filter(pred));
    } else {
        assert(front.filter(pred) + single.filter(pred) =~= front.filter(pred));
    }
}

/// Puts stored events in replay order: by position, and events that share
/// a position in the order they were given (a stable sort).
pub fn order_by_position(events: Vec<ConversationEvent>) -> (ordered: Vec<ConversationEvent>)
    ensures
        ordered_by_position(ordered@),
        forall|position: u64| #[trigger]
            ordered@.filter(at_position(position)) == events@.filter(at_position(position)),
        ordered@.len() == events@.len(),
{
    broadcast use group_seq_properties;

    let ghost given = events@;
    let total: usize = events.len();
    let mut remaining = events;
    let mut ordered: Vec<ConversationEvent> = Vec::new();
    let mut taken: usize = 0;
    while remaining.len() > 0
        invariant
            taken + remaining@.len() == given.len(),
            given.len() == total,
            remaining@ == given.skip(taken as int),
            ordered@.len() == taken,
            ordered_by_position(ordered@),
            forall|position: u64| #[trigger]
                ordered@.filter(at_position(position)) == given.take(taken as int).filter(
                    at_position(position),
                ),
        decreases remaining.len(),
    {
        let event = remaining.remove(0);
        assert(event == given[taken as int]);
        let mut index: usize = ordered.len();
        while index > 0 && ordered[index - 1].position > event.position
            invariant
                index <= ordered@.len(),
                forall|j: int| index <= j < ordered@.len() ==> ordered@[j].position > event.position,
            decreases index,
        {
            index = index - 1;
        }
        let ghost before = ordered@;
        assert forall|position: u64| #[trigger]
            before.insert(index as int, event).filter(at_position(position)) == given.take(
                taken + 1,
            ).filter(at_position(position)) by {
            lemma_insert_keeps_position_groups(before, index as int, event, position);
            assert(given.take(taken + 1) =~= given.take(taken as int).push(event));
            given.take(taken as int).lemma_filter_push(event, at_position(position));
        }
        ordered.insert(index, event);
        assert(ordered@ =~= before.insert(index as int, event));
        assert forall|i: int, j: int| 0 <= i < j < ordered@.len() implies ordered@[i].position
            <= ordered@[j].position by {
            if index > 0 && i < index && j == index {
                assert(before[index - 1].position <= event.position);
                assert(before[i].position <= before[index - 1].position);
            }
        }
        taken = taken + 1;
        assert(remaining@ =~= given.skip(taken as int));
    }
    assert(given.take(taken as int) =~= given);
    ordered
}

/// Where every event sits at the position of its index, the events at
/// `position` are the one event at that index, if there is one.
proof fn lemma_position_group(events: Seq<ConversationEvent>, position: u64)
    requires
        forall|i: int| 0 <= i < events.len() ==> #[trigger] events[i].position == i,
    ensures
        position < events.len() ==> events.filter(at_position(position)) == seq![
            events[position as int],
        ],
        position >= events.len() ==> events.filter(at_position(position)).len() == 0,
{
    broadcast use group_seq_properties;

    let pred = at_position(position);
    if position >= events.len() {
        assert(events.all(|x: ConversationEvent| !pred(x)));
        events.lemma_all_neg_filter_empty(pred);
    } else {
        let p = position as int;
        let front = events.take(p);
        let single = seq![events[p]];
        let back = events.skip(p + 1);
        assert(events =~= front + single + back);
        assert(front.all(|x: ConversationEvent| !pred(x)));
        front.lemma_all_neg_filter_empty(pred);
        assert(back.all(|x: ConversationEvent| !pred(x)));
        back.lemma_all_neg_filter_empty(pred);
        Seq::filter_distributes_over_add(front + single, back, pred);
        Seq::filter_distributes_over_add(front, single, pred);
        Seq::<ConversationEvent>::empty().lemma_filter_push(events[p], pred);
        assert(Seq::<ConversationEvent>::empty().filter(pred) =~= Seq::<ConversationEvent>::empty())
            by {
            reveal(Seq::filter);
        }
        assert(seq![events[p]] =~= Seq::<ConversationEvent>::empty().push(events[p]));
        assert(events.filter(pred) =~= single);
    }
}

/// Two events of `events` at the same position make that position's
/// group longer than one.
proof fn lemma_shared_position_group(events: Seq<ConversationEvent>, i: int, j: int)
    requires
        0 <= i < j < events.len(),
        events[i].position == events[j].position,
    ensures
        events.filter(at_position(events[i].position)).len() >= 2,
{
    broadcast use group_seq_properties;

    let pred = at_position(events[i].position);
    let front = events.take(j);
    let back = events.skip(j);
    assert(events =~= front + back);
    Seq::filter_distributes_over_add(front, back, pred);
    assert(front[i] == events[i]);
    front.lemma_filter_contains(pred, i);
    assert(back[0] == events[j]);
    back.lemma_filter_contains(pred, 0);
}

proof fn lemma_rising_positions_from_below(events: Seq<ConversationEvent>, i: int)
    requires
        0 <= i < events.len(),
        forall|a: int, b: int|
            0 <= a < b < events.len() ==> #[trigger] events[a].position < #[trigger] events[b].position,
    ensures
        events[i].position >= i,
    decreases i,
{
    if i > 0 {
        lemma_rising_positions_from_below(events, i - 1);
    }
}

proof fn lemma_rising_positions_from_above(events: Seq<ConversationEvent>, i: int)
    requires
        0 <= i < events.len(),
        forall|a: int, b: int|
            0 <= a < b < events.len() ==> #[trigger] events[a].position < #[trigger] events[b].position,
        forall|a: int| 0 <= a < events.len() ==> #[trigger] events[a].position < events.len(),
    ensures
        events[i].position <= i,
    decreases events.len() - i,
{
    if i + 1 < events.len() {
        lemma_rising_positions_from_above(events, i + 1);
    }
}

/// Replaying a stored conversation gives it back, whatever order its event
/// files are listed in: where `files` holds the events of the well-formed
/// log `log` in some order, every order that `order_by_position` may put
/// them in (position order, each position's events kept together) is the
/// log itself.
pub proof fn lemma_replay_restores_log(
    conversation_id: ConversationId,
    log: Seq<ConversationEvent>,
    files: Seq<ConversationEvent>,
    ordered: Seq<ConversationEvent>,
)
    requires
        conversation_well_formed(conversation_id, log),
        files.len() == log.len(),
        forall|position: u64| #[trigger]
            files.filter(at_position(position)) == log.filter(at_position(position)),
        ordered_by_position(ordered),
        ordered.len() == files.len(),
        forall|position: u64| #[trigger]
            ordered.filter(at_position(position)) == files.filter(at_position(position)),
    ensures
        ordered == log,
{
    broadcast use group_seq_properties;

    let n = log.len();
    assert forall|i: int| 0 <= i < n implies #[trigger] log[i].position == i by {
        assert(event_fits(conversation_id, i, log[i]));
    }
    assert forall|a: int| 0 <= a < n implies #[trigger] ordered[a].position < n by {
        let position = ordered[a].position;
        ordered.lemma_filter_contains(at_position(position), a);
        lemma_position_group(log, position);
        assert(files.filter(at_position(position)) == log.filter(at_position(position)));
    }
    assert forall|a: int, b: int| 0 <= a < b < n implies #[trigger] ordered[a].position
        < #[trigger] ordered[b].position by {
        if ordered[a].position == ordered[b].position {
            let position = ordered[a].position;
            lemma_shared_position_group(ordered, a, b);
            lemma_position_group(log, position);
            assert(files.filter(at_position(position)) == log.filter(at_position(position)));
        }
    }
    assert forall|i: int| 0 <= i < n implies #[trigger] ordered[i].position == i by {
        lemma_rising_positions_from_below(ordered, i);
        lemma_rising_positions_from_above(ordered, i);
    }
    assert forall|i: int| 0 <= i < n implies #[trigger] ordered[i] == log[i] by {
        let position = i as u64;
        lemma_position_group(ordered, position);
        lemma_position_group(log, position);
        assert(files.filter(at_position(position)) == log.filter(at_position(position)));
        assert(ordered.filter(at_position(position)) == files.filter(at_position(position)));
        assert(seq![ordered[i]][0] == seq![log[i]][0]);
    }
    assert(ordered =~= log);
}

/// Accepts stored events (in replay order) as the conversation
/// `conversation_id`: they must form a conversation, and that conversation
/// must be `conversation_id`.
pub fn loaded_conversation(conversation_id: ConversationId, events: Vec<ConversationEvent>) -> (result:
    Result<Conversation, StoreError>)
    ensures
        events@.len() == 0 ==> result == Err::<Conversation, StoreError>(
            StoreError::InvalidConversation(InvalidConversation::Empty),
        ),
        events@.len() > 0 && !conversation_well_formed(events@[0].conversation_id, events@) ==> (
        result matches Err(StoreError::InvalidConversation(error)) && reports_first_misfit(
            events@,
            error,
        )),
        events@.len() > 0 && conversation_well_formed(events@[0].conversation_id, events@)
            && events@[0].conversation_id != conversation_id ==> result == Err::<
            Conversation,
            StoreError,
        >(
            StoreError::UnexpectedConversation {
                loaded: events@[0].conversation_id,
                expected: conversation_id,
            },
        ),
        result is Ok <==> conversation_well_formed(conversation_id, events@),
        result matches Ok(conversation) ==> conversation.id_spec() == conversation_id
            && conversation.events_spec() == events@,
{
    let ghost given = events@;
    let conversation = match Conversation::from_events(events) {
        Ok(conversation) => conversation,
        Err(error) => return Err(invalid_conversation_data(error)),
    };
    if conversation.id() != conversation_id {
        return Err(
            StoreError::UnexpectedConversation {
                loaded: conversation.id(),
                expected: conversation_id,
            },
        );
    }
    Ok(conversation)
}

/// The position a new event takes after `existing` events.
pub open spec fn next_position_after(existing: Seq<ConversationEvent>) -> u64 {
    if existing.len() == 0 {
        0
    } else {
        (existing.last().position + 1) as u64
    }
}

/// Builds the next event of conversation `conversation_id` after the
/// stored `existing` events (in replay order): a fresh identifier, the
/// current time, the current schema version, and the position after the
/// last stored event. The stored events must form the conversation
/// `conversation_id`, unless there are none.
pub fn next_event(
    conversation_id: ConversationId,
    existing: Vec<ConversationEvent>,
    kind: ConversationEventKind,
) -> (result: Result<ConversationEvent, StoreError>)
    ensures
        existing@.len() > 0 && !conversation_well_formed(existing@[0].conversation_id, existing@)
            ==> (result matches Err(StoreError::InvalidConversation(error)) && reports_first_misfit(
            existing@,
            error,
        )),
        existing@.len() > 0 && conversation_well_formed(existing@[0].conversation_id, existing@)
            && existing@[0].conversation_id != conversation_id ==> result == Err::<
            ConversationEvent,
            StoreError,
        >(
            StoreError::UnexpectedConversation {
                loaded: existing@[0].conversation_id,
                expected: conversation_id,
            },
        ),
        result is Ok <==> (existing@.len() == 0 || conversation_well_formed(conversation_id, existing@)),
        result matches Ok(event) ==> event.conversation_id == conversation_id && event.position
            == existing@.len() && event.position == next_position_after(existing@)
            && event.schema_version == SCHEMA_VERSION && event.kind == kind,
{
    let ghost stored = existing@;
    let previous_position = if existing.len() == 0 {
        None
    } else {
        let conversation = loaded_conversation(conversation_id, existing)?;
        let events = conversation.events();
        Some(events[events.len() - 1].position)
    };
    proof {
        if stored.len() > 0 {
            assert(event_fits(conversation_id, stored.len() - 1, stored[stored.len() - 1]));
        }
    }
    let position = next_position(previous_position)?;
    Ok(
        ConversationEvent {
            conversation_id,
            position,
            id: ConversationEventId::new(),
            timestamp: now_utc(),
            schema_version: SCHEMA_VERSION,
            kind,
        },
    )
}

/// Appending keeps the log a conversation: a well-formed log (or an empty
/// one) extended by the event that `next_event` builds for a valid kind is
/// again a well-formed conversation with the same identifier.
pub proof fn lemma_append_keeps_conversation(
    conversation_id: ConversationId,
    existing: Seq<ConversationEvent>,
    event: ConversationEvent,
)
    requires
        existing.len() == 0 || conversation_well_formed(conversation_id, existing),
        event.conversation_id == conversation_id,
        event.position == existing.len(),
        event.kind.validation_error() is None,
    ensures
        conversation_well_formed(conversation_id, existing.push(event)),
{
    let log = existing.push(event);
    assert forall|i: int| 0 <= i < log.len() implies event_fits(conversation_id, i, #[trigger] log[i]) by {
        if i < existing.len() {
            assert(log[i] == existing[i]);
        }
    }
}

} // verus!
