use time::OffsetDateTime;

use tog::conversation::event::{
    AssistantResponse, ConversationEvent, ConversationEventKind, ModelCommunication, ModelEvent,
    ModelEventImportance, UserContent,
};
use tog::conversation::model::{ModelId, ModelSource, ProviderId};
use tog::conversation::model_problem::{ModelIssue, ModelProblem, ProblemMessage};
use tog::conversation::{Conversation, InvalidConversation, InvalidUserPrompt, UserPrompt};
use tog::identifier::{ConversationEventId, ConversationId};

fn user_event(conversation_id: ConversationId, position: u64) -> ConversationEvent {
    ConversationEvent {
        conversation_id,
        position,
        id: ConversationEventId::new(),
        timestamp: OffsetDateTime::UNIX_EPOCH,
        schema_version: 7,
        kind: ConversationEventKind::User {
            content: vec![UserContent::Text(format!("event {position}"))],
        },
    }
}

fn source() -> ModelSource {
    ModelSource::new(
        ProviderId::new("openai".to_owned()),
        ModelId::new("gpt-5.6".to_owned()),
    )
}

fn stored_event(conversation_id: ConversationId, kind: ConversationEventKind) -> ConversationEvent {
    ConversationEvent {
        conversation_id,
        position: 0,
        id: ConversationEventId::new(),
        timestamp: OffsetDateTime::UNIX_EPOCH,
        schema_version: 7,
        kind,
    }
}

#[test]
fn conversation_requires_an_event() {
    assert_eq!(
        Conversation::from_events(Vec::new()),
        Err(InvalidConversation::Empty)
    );
}

#[test]
fn conversation_rejects_mixed_conversation_ids() {
    let first_conversation_id = ConversationId::new();
    let second_conversation_id = ConversationId::new();

    let result = Conversation::from_events(vec![
        user_event(first_conversation_id, 0),
        user_event(second_conversation_id, 1),
    ]);

    assert_eq!(
        result,
        Err(InvalidConversation::MixedConversationIds {
            expected: first_conversation_id,
            found: second_conversation_id,
        })
    );
}

#[test]
fn conversation_rejects_invalid_event_order() {
    let conversation_id = ConversationId::new();

    let result = Conversation::from_events(vec![user_event(conversation_id, 1)]);

    assert_eq!(
        result,
        Err(InvalidConversation::InvalidPosition {
            expected: 0,
            found: 1,
        })
    );
}

#[test]
fn conversation_exposes_its_id_and_ordered_events() {
    let conversation_id = ConversationId::new();

    let conversation = Conversation::from_events(vec![
        user_event(conversation_id, 0),
        user_event(conversation_id, 1),
    ])
    .expect("the conversation should be valid");

    assert_eq!(conversation.id(), conversation_id);
    assert_eq!(conversation.events().len(), 2);
    assert_eq!(conversation.events()[0].position, 0);
    assert_eq!(conversation.events()[1].position, 1);
}

#[test]
fn conversation_rejects_invalid_deserialized_model_events() {
    let conversation_id = ConversationId::new();
    let conversation_event = stored_event(
        conversation_id,
        ConversationEventKind::Model {
            source: source(),
            event: ModelEvent::AssistantResponse(AssistantResponse::from_stored("   ".to_owned())),
        },
    );

    assert_eq!(
        Conversation::from_events(vec![conversation_event]),
        Err(InvalidConversation::InvalidEvent {
            position: 0,
            reason: "assistant response message must not be empty".to_owned(),
        })
    );
}

#[test]
fn conversation_rejects_invalid_deserialized_model_communications() {
    let conversation_id = ConversationId::new();
    let conversation_event = stored_event(
        conversation_id,
        ConversationEventKind::Model {
            source: source(),
            event: ModelEvent::Communication(ModelCommunication::from_stored(
                "reasoning".to_owned(),
                ModelEventImportance::Detailed,
                "   ".to_owned(),
            )),
        },
    );

    assert_eq!(
        Conversation::from_events(vec![conversation_event]),
        Err(InvalidConversation::InvalidEvent {
            position: 0,
            reason: "model communication subtype must not be empty".to_owned(),
        })
    );
}

#[test]
fn conversation_rejects_invalid_deserialized_model_problems() {
    let conversation_id = ConversationId::new();
    let conversation_event = stored_event(
        conversation_id,
        ConversationEventKind::Problem {
            problem: ModelProblem::Issue(ModelIssue::Refusal {
                message: ProblemMessage::from_stored("   ".to_owned()),
            }),
        },
    );

    assert_eq!(
        Conversation::from_events(vec![conversation_event]),
        Err(InvalidConversation::InvalidEvent {
            position: 0,
            reason: "model problem message must not be empty".to_owned(),
        })
    );
}

#[test]
fn user_prompt_rejects_empty_text() {
    let parsing_result = UserPrompt::from_str("   ");

    assert_eq!(parsing_result, Err(InvalidUserPrompt));
}

#[test]
fn user_prompt_normalizes_surrounding_whitespace() {
    let user_prompt = UserPrompt::from_str("  explain Rust ownership  ")
        .expect("the user prompt should be valid");

    assert_eq!(user_prompt.text(), "explain Rust ownership");
}

#[test]
fn user_prompt_trims_unicode_white_space_but_keeps_inner_spacing() {
    let user_prompt = UserPrompt::from_str("\u{3000}\t a  b \u{a0}\n").expect("valid prompt");

    assert_eq!(user_prompt.text(), "a  b");
    assert_eq!(UserPrompt::from_str("\u{2028}\u{85}"), Err(InvalidUserPrompt));
}

#[test]
fn conversation_rejects_a_later_event_of_another_conversation_before_its_position() {
    let conversation_id = ConversationId::new();
    let other = ConversationId::new();
    let mut wrong = user_event(other, 5);
    wrong.position = 7;

    let result = Conversation::from_events(vec![user_event(conversation_id, 0), wrong]);

    assert_eq!(
        result,
        Err(InvalidConversation::MixedConversationIds {
            expected: conversation_id,
            found: other,
        })
    );
}

#[test]
fn invalid_conversation_messages_name_the_fault() {
    assert_eq!(
        InvalidConversation::InvalidPosition { expected: 0, found: 12 }.to_string(),
        "expected conversation event position 0, found 12"
    );
    assert_eq!(
        InvalidConversation::Empty.to_string(),
        "a conversation must contain at least one event"
    );
    let expected = ConversationId::from_u128(1);
    let found = ConversationId::from_u128(0xff);
    assert_eq!(
        InvalidConversation::MixedConversationIds { expected, found }.to_string(),
        "conversation event belongs to conversation_000000000000000000000000000000ff, expected conversation_00000000000000000000000000000001"
    );
    assert_eq!(
        InvalidConversation::InvalidEvent { position: 3, reason: "bad".to_owned() }.to_string(),
        "invalid conversation event at position 3: bad"
    );
}

#[test]
fn a_prompt_reads_back_from_its_own_text() {
    let user_prompt = UserPrompt::from_str("\t say  hi \n").expect("valid prompt");
    let again = UserPrompt::from_str(user_prompt.text()).expect("the normalized text is a prompt");
    assert_eq!(again, user_prompt);
}
