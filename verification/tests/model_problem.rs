

use tog::conversation::model_problem::{InvalidModelProblem, InvocationError, ModelIssue, ModelProblem};

#[test]
fn every_problem_has_an_intentional_message_and_retryability() {
    let problems = [
        (
            ModelProblem::Issue(
                ModelIssue::try_refusal("Refused.".to_owned()).expect("the refusal should be valid"),
            ),
            "Refused.",
            false,
        ),
        (
            ModelProblem::Issue(
                ModelIssue::try_context_limit_exceeded("Context exceeded.".to_owned())
                    .expect("the context issue should be valid"),
            ),
            "Context exceeded.",
            false,
        ),
        (
            ModelProblem::Issue(
                ModelIssue::try_other("Other issue.".to_owned(), serde_json::Map::new())
                    .expect("the other issue should be valid"),
            ),
            "Other issue.",
            false,
        ),
        (
            ModelProblem::Invocation(
                InvocationError::try_authentication("Authentication failed.".to_owned())
                    .expect("the authentication error should be valid"),
            ),
            "Authentication failed.",
            false,
        ),
        (
            ModelProblem::Invocation(
                InvocationError::try_rate_limited("Rate limited.".to_owned())
                    .expect("the rate limit should be valid"),
            ),
            "Rate limited.",
            true,
        ),
        (
            ModelProblem::Invocation(
                InvocationError::try_transport("Transport failed.".to_owned())
                    .expect("the transport error should be valid"),
            ),
            "Transport failed.",
            true,
        ),
        (
            ModelProblem::Invocation(
                InvocationError::try_invalid_request("Request invalid.".to_owned())
                    .expect("the invalid request should be valid"),
            ),
            "Request invalid.",
            false,
        ),
        (
            ModelProblem::Invocation(
                InvocationError::try_provider_failure("Provider failed.".to_owned())
                    .expect("the provider failure should be valid"),
            ),
            "Provider failed.",
            true,
        ),
        (
            ModelProblem::Invocation(
                InvocationError::try_invalid_provider_response("Response invalid.".to_owned())
                    .expect("the invalid provider response should be valid"),
            ),
            "Response invalid.",
            false,
        ),
        (
            ModelProblem::Invocation(
                InvocationError::try_stream_interrupted("Stream interrupted.".to_owned())
                    .expect("the stream interruption should be valid"),
            ),
            "Stream interrupted.",
            true,
        ),
    ];

    for (problem, expected_message, expected_retryability) in problems {
        assert_eq!(problem.message(), expected_message);
        assert_eq!(problem.retryable(), expected_retryability);
    }
}

#[test]
fn model_problem_messages_must_not_be_blank() {
    assert!(ModelIssue::try_refusal("  ".to_owned()).is_err());
    assert!(ModelIssue::try_context_limit_exceeded(String::new()).is_err());
    assert!(ModelIssue::try_other("\n".to_owned(), serde_json::Map::new()).is_err());
    assert!(InvocationError::try_authentication(" ".to_owned()).is_err());
    assert!(InvocationError::try_rate_limited("\n".to_owned()).is_err());
    assert!(InvocationError::try_transport("\t".to_owned()).is_err());
    assert!(InvocationError::try_invalid_request(String::new()).is_err());
    assert!(InvocationError::try_provider_failure("  ".to_owned()).is_err());
    assert!(InvocationError::try_invalid_provider_response("\r\n".to_owned()).is_err());
    assert!(InvocationError::try_stream_interrupted("\t".to_owned()).is_err());
}

#[test]
fn model_problem_messages_preserve_surrounding_whitespace() {
    let issue = ModelProblem::Issue(
        ModelIssue::try_refusal("  refusal\n".to_owned()).expect("the refusal should be valid"),
    );
    let invocation = ModelProblem::Invocation(
        InvocationError::try_transport("  transport\n".to_owned())
            .expect("the transport error should be valid"),
    );

    assert_eq!(issue.message(), "  refusal\n");
    assert_eq!(invocation.message(), "  transport\n");
}

#[test]
fn blank_problem_messages_are_reported_as_empty() {
    assert_eq!(
        ModelIssue::try_refusal("\u{2003}".to_owned()),
        Err(InvalidModelProblem::EmptyMessage)
    );
    assert_eq!(
        InvalidModelProblem::EmptyMessage.to_string(),
        "model problem message must not be empty"
    );
}

#[test]
fn other_issues_keep_their_extensions() {
    let mut extensions = serde_json::Map::new();
    extensions.insert("code".to_owned(), serde_json::Value::from(7));
    let issue = ModelIssue::try_other("Other.".to_owned(), extensions.clone()).expect("valid");
    assert_eq!(issue.extensions(), Some(&extensions));
    let refusal = ModelIssue::try_refusal("No.".to_owned()).expect("valid");
    assert_eq!(refusal.extensions(), None);
    assert!(!refusal.retryable());
    let problem = ModelProblem::Issue(issue);
    assert_eq!(problem.ensure_valid(), Ok(()));
}
