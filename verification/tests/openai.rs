use tog::conversation::event::{
    AssistantResponse, ConversationEvent, ConversationEventKind, ModelEvent, ModelEventImportance,
    UserContent,
};
use tog::conversation::model::{ModelId, ModelSource, ProviderId};
use tog::conversation::Conversation;
use tog::identifier::{ConversationEventId, ConversationId};
use tog::model_driver::{DriverErrorKind, ModelDriverError};
use tog::openai::{
    classify_response_error, completed_response_text, decode_stream_payload, preferred_text, semantic_input, ContentItem,
    InputRole, OutputItem, ResponseState, SseDecoder,
};

fn parse_server_sent_events(
    stream: impl AsRef<str>,
    model: &str,
) -> Result<Vec<ConversationEventKind>, ModelDriverError> {
    let mut decoder = SseDecoder::new();
    let mut state = ResponseState::new();
    for line in stream.as_ref().split_inclusive('\n') {
        if let Some(frame) = decoder.push_line(line) {
            state.process_frame(frame)?;
        }
    }
    if let Some(frame) = decoder.finish() {
        state.process_frame(frame)?;
    }
    state.into_events(&ModelId::new(model.to_owned()))
}

fn model_event(kind: &ConversationEventKind) -> (&ModelSource, &ModelEvent) {
    match kind {
        ConversationEventKind::Model { source, event } => (source, event),
        _ => panic!("the returned event should be a model event"),
    }
}

#[test]
fn streaming_response_returns_important_model_event() {
    let stream = [
        "data: {\"type\":\"response.created\",\"response\":{\"id\":\"resp_1\"}}\n\n",
        "data: {\"type\":\"response.output_text.delta\",\"delta\":\"Hel\"}\n\n",
        "data: {\"type\":\"response.output_text.delta\",\"delta\":\"lo\"}\n\n",
        "data: {\"type\":\"response.completed\",\"response\":{\"id\":\"resp_1\"}}\n\n",
        "data: [DONE]\n\n"
    ].concat();

    let events = parse_server_sent_events(stream, "gpt-test").expect("the response stream should parse");

    let (source, event) = model_event(&events[0]);
    assert_eq!(event.message(), "Hello");
    assert!(matches!(event, ModelEvent::AssistantResponse(_)));
    assert_eq!(event.importance(), ModelEventImportance::Important);
    assert_eq!(source.model().as_str(), "gpt-test");
    assert_eq!(source.provider().as_str(), "openai");
}

#[test]
fn exposed_reasoning_is_aggregated_by_importance() {
    let stream = [
        "data: {\"type\":\"response.reasoning_text.delta\",\"delta\":\"Detailed \"}\n\n",
        "data: {\"type\":\"response.reasoning_text.delta\",\"delta\":\"thought\"}\n\n",
        "data: {\"type\":\"response.reasoning_summary_text.delta\",\"delta\":\"Summary\"}\n\n",
        "data: {\"type\":\"response.output_text.delta\",\"delta\":\"Answer\"}\n\n",
        "data: {\"type\":\"response.completed\",\"response\":{}}\n\n"
    ].concat();

    let events = parse_server_sent_events(stream, "gpt-test").expect("the response stream should parse");

    assert_eq!(events.len(), 3);
    let importances = events.iter().map(|event| model_event(event).1.importance());
    assert_eq!(
        importances.collect::<Vec<_>>(),
        [
            ModelEventImportance::Detailed,
            ModelEventImportance::Interesting,
            ModelEventImportance::Important
        ]
    );
    assert_eq!(model_event(&events[0]).1.message(), "Detailed thought");
    let ModelEvent::Communication(summary) = model_event(&events[1]).1 else {
        panic!("the summary should be a communication");
    };
    assert_eq!(summary.subtype(), "reasoning_summary");
}

#[test]
fn a_late_stream_failure_discards_model_events() {
    let stream = [
        "data: {\"type\":\"response.output_text.delta\",\"delta\":\"Hello\"}\n\n",
        "data: {\"type\":\"response.completed\",\"response\":{}}\n\n",
        "data: {\"type\":\"error\",\"message\":\"late failure\"}\n\n"
    ].concat();

    let result = parse_server_sent_events(stream, "gpt-test");

    assert!(matches!(result, Err(ModelDriverError::Provider(_))));
}

#[test]
fn response_statuses_map_to_typed_driver_errors() {
    assert!(matches!(
        classify_response_error(reqwest::StatusCode::UNAUTHORIZED.as_u16(), "unauthorized".to_owned()),
        ModelDriverError::Authentication(_)
    ));
    assert!(matches!(
        classify_response_error(reqwest::StatusCode::TOO_MANY_REQUESTS.as_u16(), "slow down".to_owned()),
        ModelDriverError::RateLimited(_)
    ));
    assert!(matches!(
        classify_response_error(reqwest::StatusCode::BAD_REQUEST.as_u16(), "bad request".to_owned()),
        ModelDriverError::InvalidRequest(_)
    ));
    assert!(matches!(
        classify_response_error(reqwest::StatusCode::INTERNAL_SERVER_ERROR.as_u16(), "failed".to_owned()),
        ModelDriverError::Provider(_)
    ));
}

#[test]
fn provider_failures_name_the_status_and_body() {
    let error = classify_response_error(500, "{\"error\":1}".to_owned());
    assert_eq!(
        error,
        ModelDriverError::Provider(
            "OpenAI Responses returned 500 Internal Server Error: {\"error\":1}".to_owned()
        )
    );
    assert_eq!(error.kind(), DriverErrorKind::Provider);
    assert_eq!(
        classify_response_error(403, "no".to_owned()),
        ModelDriverError::Authentication("no".to_owned())
    );
    assert_eq!(
        classify_response_error(422, "no".to_owned()),
        ModelDriverError::InvalidRequest("no".to_owned())
    );
}

#[test]
fn a_stream_without_completion_is_an_invalid_response() {
    let stream = "data: {\"type\":\"response.output_text.delta\",\"delta\":\"Hi\"}\n\n";
    assert_eq!(
        parse_server_sent_events(stream, "m"),
        Err(ModelDriverError::InvalidResponse("response.completed was not received".to_owned()))
    );
}

#[test]
fn a_second_completion_is_an_invalid_response() {
    let stream = [
        "data: {\"type\":\"response.output_text.delta\",\"delta\":\"Hi\"}\n\n",
        "data: {\"type\":\"response.completed\"}\n\n",
        "data: {\"type\":\"response.completed\"}\n\n"
    ].concat();
    assert_eq!(
        parse_server_sent_events(stream, "m"),
        Err(ModelDriverError::InvalidResponse(
            "response.completed was received more than once".to_owned()
        ))
    );
}

#[test]
fn completion_without_text_falls_back_to_the_output_items() {
    let stream = [
        "event: response.completed\r\n",
        "data: {\"response\":{\"output\":[{\"content\":[{\"type\":\"output_text\",\"text\":\"A\"},",
        "{\"type\":\"refusal\",\"refusal\":\"B\"},{\"type\":\"other\",\"text\":\"C\"}]},{\"id\":1}]}}\r\n",
        "\r\n"
    ].concat();
    let events = parse_server_sent_events(stream, "m").expect("the response stream should parse");
    assert_eq!(events.len(), 1);
    assert_eq!(model_event(&events[0]).1.message(), "AB");
}

#[test]
fn completion_without_any_message_is_an_invalid_response() {
    let stream = "data: {\"type\":\"response.completed\",\"response\":{}}\n";
    assert_eq!(
        parse_server_sent_events(stream, "m"),
        Err(ModelDriverError::InvalidResponse(
            "the completed response contained no model message".to_owned()
        ))
    );
}

#[test]
fn done_events_are_used_when_nothing_was_streamed() {
    let stream = [
        "data: {\"type\":\"response.reasoning_summary_text.done\",\"text\":\"S\"}\n\n",
        "data: {\"type\":\"response.refusal.done\",\"refusal\":\"R\"}\n\n",
        "data: {\"type\":\"response.completed\"}\n\n"
    ].concat();
    let events = parse_server_sent_events(stream, "m").expect("the response stream should parse");
    assert_eq!(events.len(), 2);
    assert_eq!(model_event(&events[0]).1.message(), "S");
    assert_eq!(model_event(&events[1]).1.message(), "R");
}

#[test]
fn invalid_json_is_an_invalid_response() {
    let result = parse_server_sent_events("data: {not json}\n\n", "m");
    assert!(matches!(result, Err(ModelDriverError::InvalidResponse(_))));
}

#[test]
fn stream_errors_name_the_event_type() {
    let stream = "event: response.failed\ndata: {\"id\":1}\n\n";
    assert_eq!(
        parse_server_sent_events(stream, "m"),
        Err(ModelDriverError::Provider(
            "OpenAI stream emitted response.failed: {\"id\":1}".to_owned()
        ))
    );
}

#[test]
fn the_decoder_joins_data_lines_and_skips_the_done_sentinel() {
    let mut decoder = SseDecoder::new();
    assert_eq!(decoder.push_line("event:   custom\n"), None);
    assert_eq!(decoder.push_line("data: first\r\n"), None);
    assert_eq!(decoder.push_line(": a comment\n"), None);
    assert_eq!(decoder.push_line("data:second\n"), None);
    let frame = decoder.push_line("\n").expect("a frame");
    assert_eq!(frame.event_name.as_deref(), Some("custom"));
    assert_eq!(frame.data, "first\nsecond");
    assert_eq!(decoder.push_line("data: [DONE]\n"), None);
    assert_eq!(decoder.push_line("\r\n"), None);
    assert_eq!(decoder.push_line("\n"), None);
    assert_eq!(decoder.push_line("data: tail"), None);
    let last = decoder.finish().expect("the pending event is dispatched at the end");
    assert_eq!(last.event_name, None);
    assert_eq!(last.data, "tail");
}

#[test]
fn preferred_text_prefers_streamed_text() {
    assert_eq!(preferred_text("a", &Some("b".to_owned())), Some("a".to_owned()));
    assert_eq!(preferred_text("", &Some("b".to_owned())), Some("b".to_owned()));
    assert_eq!(preferred_text("", &None), None);
}

#[test]
fn completed_response_text_needs_an_output_array_with_text() {
    assert_eq!(completed_response_text(&None), None);
    assert_eq!(completed_response_text(&Some(Vec::new())), None);
    let items = vec![OutputItem {
        content: Some(vec![ContentItem {
            kind: Some("output_text".to_owned()),
            text: Some("x".to_owned()),
            refusal: None,
        }]),
    }];
    assert_eq!(completed_response_text(&Some(items)), Some("x".to_owned()));
}

#[test]
fn semantic_input_replays_user_turns_and_final_answers() {
    let conversation_id = ConversationId::new();
    let source = ModelSource::new(ProviderId::new("openai".to_owned()), ModelId::new("m".to_owned()));
    let kinds = vec![
        ConversationEventKind::User {
            content: vec![UserContent::Text("First".to_owned()), UserContent::Text("question".to_owned())],
        },
        ConversationEventKind::Model {
            source: source.clone(),
            event: ModelEvent::AssistantResponse(AssistantResponse::new("First answer".to_owned()).unwrap()),
        },
        ConversationEventKind::User { content: vec![UserContent::Text("Second question".to_owned())] },
    ];
    let events = kinds
        .into_iter()
        .enumerate()
        .map(|(position, kind)| ConversationEvent {
            conversation_id,
            position: position as u64,
            id: ConversationEventId::new(),
            timestamp: time::OffsetDateTime::UNIX_EPOCH,
            schema_version: 9,
            kind,
        })
        .collect();
    let conversation = Conversation::from_events(events).expect("valid conversation");

    let input = semantic_input(&conversation);

    assert_eq!(input.len(), 3);
    assert_eq!(input[0].role, InputRole::User);
    assert_eq!(input[0].content, "First\nquestion");
    assert_eq!(input[1].role.as_str(), "assistant");
    assert_eq!(input[1].content, "First answer");
    assert_eq!(input[2].content, "Second question");
}

#[test]
fn the_responses_endpoint_follows_the_base_url() {
    assert_eq!(tog::openai::responses_url("https://api.openai.com/v1"), "https://api.openai.com/v1/responses");
    assert_eq!(tog::openai::responses_url("http://127.0.0.1:9/v1//"), "http://127.0.0.1:9/v1/responses");
}

#[test]
fn stream_payloads_read_their_string_members_and_output_items() {
    let payload = decode_stream_payload(
        "{ \"type\" : \"response.completed\", \"delta\": 3, \"response\": { \"output\": [ {\"content\": [ {\"type\": \"output_text\", \"text\": \"A\"} ]}, {\"id\": 1} ] } }",
    )
    .expect("the payload is JSON");
    assert_eq!(payload.kind.as_deref(), Some("response.completed"));
    assert_eq!(payload.delta, None);
    assert_eq!(payload.text, None);
    assert_eq!(payload.refusal, None);
    assert_eq!(
        payload.response_output,
        Some(vec![
            OutputItem {
                content: Some(vec![ContentItem {
                    kind: Some("output_text".to_owned()),
                    text: Some("A".to_owned()),
                    refusal: None,
                }]),
            },
            OutputItem { content: None },
        ])
    );
    assert_eq!(
        payload.json,
        "{\"delta\":3,\"response\":{\"output\":[{\"content\":[{\"text\":\"A\",\"type\":\"output_text\"}]},{\"id\":1}]},\"type\":\"response.completed\"}"
    );
    assert!(decode_stream_payload("{not json}").is_err());
    assert_eq!(decode_stream_payload("[1]").map(|payload| payload.kind), Ok(None));
}

#[test]
fn deltas_after_completion_leave_the_events_unchanged() {
    let stream = [
        "data: {\"type\":\"response.output_text.delta\",\"delta\":\"Done\"}\n\n",
        "data: {\"type\":\"response.completed\"}\n\n",
        "data: {\"type\":\"response.output_text.delta\",\"delta\":\" and more\"}\n\n",
        "data: {\"type\":\"response.reasoning_text.delta\",\"delta\":\"late\"}\n\n",
    ]
    .concat();
    let events = parse_server_sent_events(stream, "m").expect("the response stream should parse");
    assert_eq!(events.len(), 1);
    assert_eq!(model_event(&events[0]).1.message(), "Done");
}

fn feed(state: &mut ResponseState, data: &str) -> Result<(), ModelDriverError> {
    state.process_frame(tog::openai::SseFrame { event_name: None, data: data.to_owned() })
}

#[test]
fn a_refused_completion_leaves_the_response_state_unchanged() {
    let mut state = ResponseState::new();
    feed(&mut state, "{\"type\":\"response.reasoning_text.delta\",\"delta\":\"thinking\"}").unwrap();
    assert!(feed(&mut state, "{\"type\":\"response.completed\"}").is_err());
    feed(&mut state, "{\"type\":\"response.output_text.delta\",\"delta\":\"Answer\"}").unwrap();
    feed(&mut state, "{\"type\":\"response.completed\"}").unwrap();
    assert_eq!(
        feed(&mut state, "{\"type\":\"response.completed\"}"),
        Err(ModelDriverError::InvalidResponse(
            "response.completed was received more than once".to_owned()
        ))
    );
    let events = state.into_events(&ModelId::new("m".to_owned())).unwrap();
    let messages: Vec<&str> = events.iter().map(|kind| model_event(kind).1.message()).collect();
    assert_eq!(messages, ["thinking", "Answer"]);
}

#[test]
fn the_request_carries_model_input_and_streaming() {
    let conversation_id = ConversationId::new();
    let events = vec![ConversationEvent {
        conversation_id,
        position: 0,
        id: ConversationEventId::new(),
        timestamp: time::OffsetDateTime::UNIX_EPOCH,
        schema_version: 9,
        kind: ConversationEventKind::User { content: vec![UserContent::Text("say hi".to_owned())] },
    }];
    let conversation = Conversation::from_events(events).expect("valid conversation");
    let request = tog::openai::responses_request(&ModelId::new("gpt-5.6".to_owned()), &conversation);
    assert_eq!(request.model, "gpt-5.6");
    assert_eq!(request.input.len(), 1);
    assert_eq!(request.input[0].content, "say hi");
    assert_eq!(request.input[0].role, InputRole::User);
    assert!(request.stream && request.store);
}
