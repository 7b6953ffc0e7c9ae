use tog::agent_run::{InvalidResponseVerbosity, ResponseVerbosity};

#[test]
fn response_verbosity_names_read_back() {
    for verbosity in [ResponseVerbosity::Low, ResponseVerbosity::Medium, ResponseVerbosity::High] {
        assert_eq!(ResponseVerbosity::from_str(verbosity.as_str()), Ok(verbosity));
    }
    assert_eq!(ResponseVerbosity::Medium.as_str(), "medium");
}

#[test]
fn response_verbosity_rejects_other_names() {
    assert_eq!(ResponseVerbosity::from_str("Low"), Err(InvalidResponseVerbosity));
    assert_eq!(ResponseVerbosity::from_str(""), Err(InvalidResponseVerbosity));
    assert_eq!(
        InvalidResponseVerbosity.to_string(),
        "verbosity must be low, medium, or high"
    );
}
