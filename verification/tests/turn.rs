use time::OffsetDateTime;

use tog::conversation::event::{
    AssistantResponse, ConversationEvent, ConversationEventKind, ModelEvent, UserContent,
};
use tog::conversation::model::{ModelId, ModelSource, ProviderId};
use tog::conversation::UserPrompt;
use tog::identifier::{ConversationEventId, ConversationId};
use tog::model_driver::ModelDriverError;
use tog::persistence::StoreError;
use tog::turn::{TurnAction, TurnEvent, TurnFailure, TurnRequest, TurnSession};

fn stored(conversation_id: ConversationId, kind: ConversationEventKind) -> ConversationEvent {
    ConversationEvent {
        conversation_id,
        position: 0,
        id: ConversationEventId::new(),
        timestamp: OffsetDateTime::UNIX_EPOCH,
        schema_version: 9,
        kind,
    }
}

fn answer(text: &str) -> ConversationEventKind {
    ConversationEventKind::Model {
        source: ModelSource::new(ProviderId::new("openai".to_owned()), ModelId::new("m".to_owned())),
        event: ModelEvent::AssistantResponse(AssistantResponse::new(text.to_owned()).unwrap()),
    }
}

#[test]
fn a_new_conversation_turn_appends_user_input_before_invoking_the_model() {
    let request = TurnRequest {
        conversation_id: None,
        user_prompt: UserPrompt::from_str("say hi").unwrap(),
    };
    let (mut session, action) = TurnSession::start(request);
    let TurnAction::ReportConversation(id) = action else { panic!("report first") };

    let TurnAction::AppendUserEvent(user_id, kind) = session.step(TurnEvent::ConversationReported) else {
        panic!("append the user's input next")
    };
    assert_eq!(user_id, id);
    let ConversationEventKind::User { content } = &kind else { panic!("a user event") };
    assert_eq!(content, &vec![UserContent::Text("say hi".to_owned())]);

    let action = session.step(TurnEvent::UserEventAppended(Ok(stored(id, kind))));
    assert!(matches!(action, TurnAction::LoadConversation(loaded) if loaded == id));
    let action = session.step(TurnEvent::ConversationLoaded(Ok(())));
    assert!(matches!(action, TurnAction::InvokeModel(invoked) if invoked == id));

    let action = session.step(TurnEvent::ModelInvoked(Ok(vec![answer("one"), answer("two")])));
    let TurnAction::AppendModelEvent(_, first) = action else { panic!("append returned events") };
    let action = session.step(TurnEvent::ModelEventAppended(Ok(stored(id, first))));
    let TurnAction::AppendModelEvent(_, second) = action else { panic!("append the second event") };
    let action = session.step(TurnEvent::ModelEventAppended(Ok(stored(id, second))));
    let TurnAction::Finish(events) = action else { panic!("the turn finishes") };
    let messages: Vec<&str> = events.iter().map(|event| event.message()).collect();
    assert_eq!(messages, ["one", "two"]);
    assert!(matches!(session.step(TurnEvent::ConversationReported), TurnAction::Halt));
}

#[test]
fn an_existing_conversation_is_checked_first() {
    let id = ConversationId::new();
    let request = TurnRequest {
        conversation_id: Some(id),
        user_prompt: UserPrompt::from_str("again").unwrap(),
    };
    let (mut session, action) = TurnSession::start(request);
    assert!(matches!(action, TurnAction::CheckConversation(checked) if checked == id));
    let action = session.step(TurnEvent::ConversationChecked(Err(StoreError::PositionOverflow)));
    assert!(matches!(action, TurnAction::Fail(TurnFailure::Store(StoreError::PositionOverflow))));
    assert!(matches!(session.step(TurnEvent::ConversationReported), TurnAction::Halt));
}

#[test]
fn a_failed_invocation_appends_nothing() {
    let id = ConversationId::new();
    let request = TurnRequest {
        conversation_id: Some(id),
        user_prompt: UserPrompt::from_str("fail").unwrap(),
    };
    let (mut session, _) = TurnSession::start(request);
    session.step(TurnEvent::ConversationChecked(Ok(())));
    let TurnAction::AppendUserEvent(_, kind) = session.step(TurnEvent::ConversationReported) else {
        panic!("append the user's input")
    };
    session.step(TurnEvent::UserEventAppended(Ok(stored(id, kind))));
    session.step(TurnEvent::ConversationLoaded(Ok(())));
    let action = session.step(TurnEvent::ModelInvoked(Err(ModelDriverError::Provider("down".to_owned()))));
    assert!(matches!(action, TurnAction::Fail(TurnFailure::Driver(ModelDriverError::Provider(_)))));
    assert!(matches!(session.step(TurnEvent::ModelInvoked(Ok(vec![answer("late")]))), TurnAction::Halt));
}

#[test]
fn an_unexpected_outcome_fails_the_turn() {
    let request = TurnRequest {
        conversation_id: None,
        user_prompt: UserPrompt::from_str("x").unwrap(),
    };
    let (mut session, _) = TurnSession::start(request);
    let action = session.step(TurnEvent::ConversationLoaded(Ok(())));
    assert!(matches!(action, TurnAction::Fail(TurnFailure::UnexpectedEvent)));
}

#[test]
fn an_empty_invocation_finishes_without_appending() {
    let id = ConversationId::new();
    let (mut session, _) = TurnSession::start(TurnRequest {
        conversation_id: Some(id),
        user_prompt: UserPrompt::from_str("x").unwrap(),
    });
    session.step(TurnEvent::ConversationChecked(Ok(())));
    let TurnAction::AppendUserEvent(_, kind) = session.step(TurnEvent::ConversationReported) else {
        panic!("append")
    };
    session.step(TurnEvent::UserEventAppended(Ok(stored(id, kind))));
    session.step(TurnEvent::ConversationLoaded(Ok(())));
    let action = session.step(TurnEvent::ModelInvoked(Ok(Vec::new())));
    assert!(matches!(action, TurnAction::Finish(events) if events.is_empty()));
}

fn replay(conversation_id: ConversationId, kinds: Vec<ConversationEventKind>) -> tog::conversation::Conversation {
    let mut log: Vec<ConversationEvent> = Vec::new();
    for kind in kinds {
        let event = tog::persistence::next_event(conversation_id, log.clone(), kind)
            .expect("the event log should accept the event");
        log.push(event);
    }
    tog::persistence::loaded_conversation(conversation_id, log).expect("the log should load")
}

fn user(text: &str) -> ConversationEventKind {
    UserPrompt::from_str(text).unwrap().into_event_kind()
}

fn input_contents(conversation: &tog::conversation::Conversation) -> Vec<String> {
    tog::openai::semantic_input(conversation)
        .into_iter()
        .map(|message| message.content)
        .collect()
}

#[test]
fn turn_persists_events_and_prints_semantic_output() {
    let words = vec!["say".to_owned(), "hi".to_owned()];
    let request = TurnRequest {
        conversation_id: None,
        user_prompt: tog::command_line::user_prompt_from_words(&words).unwrap(),
    };
    let (mut session, action) = TurnSession::start(request);
    let TurnAction::ReportConversation(id) = action else { panic!("report first") };
    assert!(id.to_string().starts_with("conversation_"));
    let TurnAction::AppendUserEvent(_, kind) = session.step(TurnEvent::ConversationReported) else {
        panic!("append the user's input")
    };
    let first = tog::persistence::next_event(id, Vec::new(), kind).unwrap();
    assert_eq!(first.position, 0);
    assert_eq!(first.schema_version, 9);
    assert!(matches!(session.step(TurnEvent::UserEventAppended(Ok(first.clone()))), TurnAction::LoadConversation(_)));
    let conversation = tog::persistence::loaded_conversation(id, vec![first.clone()]).unwrap();
    assert_eq!(input_contents(&conversation), ["say hi"]);
    assert!(matches!(session.step(TurnEvent::ConversationLoaded(Ok(()))), TurnAction::InvokeModel(_)));
    let TurnAction::AppendModelEvent(_, answer_kind) =
        session.step(TurnEvent::ModelInvoked(Ok(vec![answer("Hello")])))
    else {
        panic!("append the answer")
    };
    let second = tog::persistence::next_event(id, vec![first], answer_kind).unwrap();
    assert_eq!(second.position, 1);
    let TurnAction::Finish(events) = session.step(TurnEvent::ModelEventAppended(Ok(second))) else {
        panic!("the turn finishes")
    };
    let printed: Vec<String> = tog::command_line::Verbosity::Low
        .retain_visible(events)
        .iter()
        .map(|event| event.message().to_owned())
        .collect();
    assert_eq!(printed, ["Hello"]);
}

#[test]
fn subsequent_turn_reconstructs_semantic_conversation() {
    let id = ConversationId::new();
    let conversation = replay(
        id,
        vec![user("First question"), answer("First answer"), user("Second question")],
    );
    let contents = input_contents(&conversation);
    assert_eq!(contents.len(), 3);
    assert_eq!(contents[0], "First question");
    assert_eq!(contents[1], "First answer");
    assert_eq!(contents[2], "Second question");
}

#[test]
fn failed_user_turn_is_included_in_the_next_local_reconstruction() {
    let id = ConversationId::new();
    let conversation = replay(
        id,
        vec![
            user("First question"),
            answer("First answer"),
            user("Failed question"),
            user("Recovery question"),
        ],
    );
    let contents = input_contents(&conversation);
    assert_eq!(contents.len(), 4);
    assert_eq!(contents[2], "Failed question");
}
