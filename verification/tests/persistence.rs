use time::OffsetDateTime;

use tog::conversation::event::{ConversationEvent, ConversationEventKind, UserContent};
use tog::conversation::InvalidConversation;
use tog::identifier::{ConversationEventId, ConversationId};
use tog::persistence::{
    event_path, invalid_conversation_data, loaded_conversation, next_event, next_position,
    order_by_position, StoreError, SCHEMA_VERSION,
};

fn user_kind(text: &str) -> ConversationEventKind {
    ConversationEventKind::User { content: vec![UserContent::Text(text.to_owned())] }
}

fn stored(conversation_id: ConversationId, position: u64, text: &str) -> ConversationEvent {
    ConversationEvent {
        conversation_id,
        position,
        id: ConversationEventId::new(),
        timestamp: OffsetDateTime::UNIX_EPOCH,
        schema_version: 9,
        kind: user_kind(text),
    }
}

#[test]
fn event_store_assigns_canonical_envelope_metadata() {
    let conversation_id = ConversationId::new();

    let first_event = next_event(conversation_id, Vec::new(), user_kind("first"))
        .expect("the first event should be persisted");
    let second_event = next_event(conversation_id, vec![first_event.clone()], user_kind("second"))
        .expect("the second event should be persisted");

    assert_eq!(first_event.conversation_id, conversation_id);
    assert_eq!(first_event.position, 0);
    assert_eq!(first_event.schema_version, 9);
    assert_ne!(first_event.timestamp, OffsetDateTime::UNIX_EPOCH);
    assert_eq!(second_event.conversation_id, conversation_id);
    assert_eq!(second_event.position, 1);
    assert_eq!(second_event.schema_version, 9);
    assert_ne!(second_event.timestamp, OffsetDateTime::UNIX_EPOCH);
    assert_ne!(second_event.id, first_event.id);

    let conversation = loaded_conversation(
        conversation_id,
        order_by_position(vec![second_event, first_event]),
    )
    .expect("the conversation should load");
    assert_eq!(conversation.events()[0].position, 0);
    assert_eq!(conversation.events()[1].position, 1);
    assert!(conversation
        .events()
        .iter()
        .all(|event| event.conversation_id == conversation_id));
}

#[test]
fn event_files_are_named_by_padded_position_and_identifier() {
    assert_eq!(event_path(0, "abc"), "00000000000000000000-abc.json");
    assert_eq!(event_path(42, "id"), "00000000000000000042-id.json");
    assert_eq!(event_path(u64::MAX, "x"), "18446744073709551615-x.json");
    assert!(event_path(9, "z") < event_path(10, "a"));
    assert_eq!(SCHEMA_VERSION, 9);
}

#[test]
fn positions_follow_the_previous_one() {
    assert_eq!(next_position(None), Ok(0));
    assert_eq!(next_position(Some(4)), Ok(5));
    assert_eq!(next_position(Some(u64::MAX)), Err(StoreError::PositionOverflow));
}

#[test]
fn stored_events_are_replayed_in_position_order_keeping_ties_in_order() {
    let id = ConversationId::new();
    let ordered = order_by_position(vec![
        stored(id, 2, "c"),
        stored(id, 0, "a"),
        stored(id, 1, "b1"),
        stored(id, 1, "b2"),
    ]);
    let texts: Vec<String> = ordered
        .iter()
        .map(|event| match &event.kind {
            ConversationEventKind::User { content } => match &content[0] {
                UserContent::Text(text) => text.clone(),
            },
            _ => unreachable!(),
        })
        .collect();
    assert_eq!(texts, ["a", "b1", "b2", "c"]);
}

#[test]
fn a_log_of_another_conversation_is_rejected() {
    let stored_id = ConversationId::from_u128(1);
    let expected = ConversationId::from_u128(2);
    let result = loaded_conversation(expected, vec![stored(stored_id, 0, "a")]);
    let error = result.expect_err("another conversation's log is rejected");
    assert_eq!(
        error,
        StoreError::UnexpectedConversation { loaded: stored_id, expected }
    );
    assert_eq!(
        error.to_string(),
        "loaded conversation_00000000000000000000000000000001, expected conversation_00000000000000000000000000000002"
    );
    assert!(next_event(expected, vec![stored(stored_id, 0, "a")], user_kind("b")).is_err());
}

#[test]
fn an_invalid_log_cannot_be_extended() {
    let id = ConversationId::new();
    let result = next_event(id, vec![stored(id, 1, "gap")], user_kind("b"));
    assert_eq!(
        result,
        Err(StoreError::InvalidConversation(InvalidConversation::InvalidPosition {
            expected: 0,
            found: 1
        }))
    );
    assert_eq!(
        loaded_conversation(id, Vec::new()).expect_err("an empty log is no conversation"),
        invalid_conversation_data(InvalidConversation::Empty)
    );
}

#[test]
fn a_log_listed_in_any_order_replays_as_the_conversation() {
    let conversation_id = ConversationId::new();
    let log: Vec<ConversationEvent> =
        (0..4).map(|position| stored(conversation_id, position, "text")).collect();
    let mut listed = log.clone();
    listed.reverse();
    listed.swap(0, 2);

    let replayed = order_by_position(listed);

    assert_eq!(replayed, log);
    let conversation = loaded_conversation(conversation_id, replayed).expect("the log is a conversation");
    assert_eq!(conversation.events(), log.as_slice());
}

#[test]
fn event_file_names_sort_in_position_order() {
    assert!(event_path(9, "ffff") < event_path(10, "0000"));
    assert!(event_path(0, "z") < event_path(1, "a"));
    assert!(event_path(u64::MAX - 1, "b") < event_path(u64::MAX, "a"));
}
