use tog::conversation::event::{
    AssistantResponse, ConversationEventKind, InvalidAssistantResponse, InvalidConversationEventKind,
    InvalidModelCommunication, InvalidModelEvent, ModelCommunication, ModelEvent,
    ModelEventImportance, UserContent,
};
use tog::conversation::model::{ModelId, ModelSource, ProviderId};
use tog::conversation::model_problem::{InvalidModelProblem, ModelIssue, ModelProblem};

#[test]
fn assistant_response_rejects_an_empty_message() {
    assert_eq!(
        AssistantResponse::new(String::new()),
        Err(InvalidAssistantResponse::EmptyMessage)
    );
}

#[test]
fn assistant_response_rejects_a_whitespace_only_message() {
    assert_eq!(
        AssistantResponse::new(" \n\t ".to_owned()),
        Err(InvalidAssistantResponse::EmptyMessage)
    );
}

#[test]
fn assistant_response_preserves_surrounding_whitespace() {
    let response = AssistantResponse::new("  answer\n".to_owned())
        .expect("the assistant response should be valid");

    assert_eq!(response.message(), "  answer\n");
}

#[test]
fn model_communication_rejects_an_empty_message() {
    assert_eq!(
        ModelCommunication::new(
            String::new(),
            ModelEventImportance::Detailed,
            "reasoning".to_owned(),
        ),
        Err(InvalidModelCommunication::EmptyMessage)
    );
    assert_eq!(
        ModelCommunication::new(
            " \n ".to_owned(),
            ModelEventImportance::Detailed,
            "reasoning".to_owned(),
        ),
        Err(InvalidModelCommunication::EmptyMessage)
    );
}

#[test]
fn model_communication_rejects_an_empty_subtype() {
    assert_eq!(
        ModelCommunication::new(
            "message".to_owned(),
            ModelEventImportance::Detailed,
            " \t ".to_owned(),
        ),
        Err(InvalidModelCommunication::EmptySubtype)
    );
}

#[test]
fn model_communication_preserves_its_message_and_subtype() {
    let communication = ModelCommunication::new(
        "  message\n".to_owned(),
        ModelEventImportance::Interesting,
        " reasoning_summary ".to_owned(),
    )
    .expect("the model communication should be valid");

    assert_eq!(communication.message(), "  message\n");
    assert_eq!(communication.subtype(), " reasoning_summary ");
}

#[test]
fn model_communication_checks_its_message_before_its_subtype() {
    assert_eq!(
        ModelCommunication::new(" ".to_owned(), ModelEventImportance::Important, "".to_owned()),
        Err(InvalidModelCommunication::EmptyMessage)
    );
}

#[test]
fn model_events_report_message_and_importance() {
    let response = ModelEvent::AssistantResponse(
        AssistantResponse::new("The answer is 42.".to_owned()).expect("valid"),
    );
    assert_eq!(response.message(), "The answer is 42.");
    assert_eq!(response.importance(), ModelEventImportance::Important);

    let communication = ModelEvent::Communication(
        ModelCommunication::new(
            "I compared the two approaches.".to_owned(),
            ModelEventImportance::Detailed,
            "reasoning".to_owned(),
        )
        .expect("valid"),
    );
    assert_eq!(communication.message(), "I compared the two approaches.");
    assert_eq!(communication.importance(), ModelEventImportance::Detailed);
    let ModelEvent::Communication(inner) = &communication else {
        panic!("the event should be a model communication");
    };
    assert_eq!(inner.subtype(), "reasoning");
}

#[test]
fn event_kinds_report_why_they_are_invalid() {
    let user = ConversationEventKind::User { content: vec![UserContent::Text(String::new())] };
    assert_eq!(user.ensure_valid(), Ok(()));

    let source = ModelSource::new(ProviderId::new("openai".to_owned()), ModelId::new("m".to_owned()));
    let model = ConversationEventKind::Model {
        source,
        event: ModelEvent::AssistantResponse(AssistantResponse::from_stored("\t".to_owned())),
    };
    let error = model.ensure_valid().expect_err("a blank response is invalid");
    assert_eq!(
        error,
        InvalidConversationEventKind::InvalidModelEvent(InvalidModelEvent::AssistantResponse(
            InvalidAssistantResponse::EmptyMessage
        ))
    );
    assert_eq!(error.to_string(), "assistant response message must not be empty");

    let problem = ConversationEventKind::Problem {
        problem: ModelProblem::Issue(ModelIssue::try_refusal("No.".to_owned()).expect("valid")),
    };
    assert_eq!(problem.ensure_valid(), Ok(()));
    assert_eq!(
        InvalidConversationEventKind::InvalidConversationProblem(InvalidModelProblem::EmptyMessage)
            .to_string(),
        "model problem message must not be empty"
    );
}

#[test]
fn importance_orders_detailed_interesting_important() {
    assert!(ModelEventImportance::Important.at_least(ModelEventImportance::Interesting));
    assert!(ModelEventImportance::Interesting.at_least(ModelEventImportance::Detailed));
    assert!(ModelEventImportance::Detailed.at_least(ModelEventImportance::Detailed));
    assert!(!ModelEventImportance::Detailed.at_least(ModelEventImportance::Interesting));
}
