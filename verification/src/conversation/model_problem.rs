//! Problems a model driver reports as part of the conversation: issues with
//! what the model produced, and failures of the invocation itself. Every
//! problem carries a message that is not blank.
use vstd::prelude::*;

use crate::text::{is_blank, is_blank_text};

verus! {

#[verifier::external_type_specification]
#[verifier::external_body]
#[verifier::reject_recursive_types(K)]
#[verifier::reject_recursive_types(V)]
pub struct ExJsonMap<K, V>(serde_json::Map<K, V>);

#[verifier::external_type_specification]
#[verifier::external_body]
pub struct ExJsonValue(serde_json::Value);

/// `Clone` of `serde_json::Map<String, Value>` (the extensions of an
/// `Other` issue). Nothing is claimed of the copy: the map is opaque here.
pub assume_specification[ <serde_json::Map<String, serde_json::Value> as Clone>::clone ](
    map: &serde_json::Map<String, serde_json::Value>,
) -> serde_json::Map<String, serde_json::Value>;

/// A problem that a model driver attributes to the conversation.
#[derive(Clone, Debug, PartialEq, Eq)]
pub enum ModelProblem {
    Issue(ModelIssue),
    Invocation(InvocationError),
}

impl ModelProblem {
    /// The problem's message.
    pub open spec fn message_spec(&self) -> Seq<char> {
        match self {
            ModelProblem::Issue(issue) => issue.message_spec(),
            ModelProblem::Invocation(error) => error.message_spec(),
        }
    }

    /// Whether repeating the invocation may succeed.
    pub open spec fn retryable_spec(&self) -> bool {
        match self {
            ModelProblem::Issue(_) => false,
            ModelProblem::Invocation(error) => error.retryable_spec(),
        }
    }

    /// The problem is valid: its message is not blank.
    pub open spec fn valid(&self) -> bool {
        !is_blank(self.message_spec())
    }

    /// The problem's message.
    pub fn message(&self) -> (message: &str)
        ensures
            message@ == self.message_spec(),
    {
        match self {
            ModelProblem::Issue(issue) => issue.message(),
            ModelProblem::Invocation(error) => error.message(),
        }
    }

    /// Whether repeating the invocation may succeed: never for an issue with
    /// the model's output; for an invocation error, as that error says.
    pub fn retryable(&self) -> (retryable: bool)
        ensures
            retryable == self.retryable_spec(),
    {
        match self {
            ModelProblem::Issue(issue) => issue.retryable(),
            ModelProblem::Invocation(error) => error.retryable(),
        }
    }

    /// Checks that the problem's message is not blank.
    pub fn ensure_valid(&self) -> (result: Result<(), InvalidModelProblem>)
        ensures
            result == (if self.valid() {
                Ok::<(), InvalidModelProblem>(())
            } else {
                Err(InvalidModelProblem::EmptyMessage)
            }),
    {
        match self {
            ModelProblem::Issue(issue) => issue.ensure_valid(),
            ModelProblem::Invocation(error) => error.ensure_valid(),
        }
    }
}

/// An issue with what the model produced.
#[derive(Clone, Debug, PartialEq, Eq)]
pub enum ModelIssue {
    Refusal { message: ProblemMessage },
    ContextLimitExceeded { message: ProblemMessage },
    Other { message: ProblemMessage, extensions: serde_json::Map<String, serde_json::Value> },
}

impl ModelIssue {
    /// The issue's message.
    pub open spec fn message_spec(&self) -> Seq<char> {
        match self {
            ModelIssue::Refusal { message } => message@,
            ModelIssue::ContextLimitExceeded { message } => message@,
            ModelIssue::Other { message, .. } => message@,
        }
    }

    /// A refusal by the model, if `message` is not blank.
    pub fn try_refusal(message: String) -> (result: Result<Self, InvalidModelProblem>)
        ensures
            is_blank(message@) ==> result == Err::<Self, InvalidModelProblem>(
                InvalidModelProblem::EmptyMessage,
            ),
            !is_blank(message@) ==> (result matches Ok(ModelIssue::Refusal { message: m })
                && m@ == message@),
    {
        Ok(ModelIssue::Refusal { message: ProblemMessage::try_new(message)? })
    }

    /// The conversation no longer fits the model's context, if `message` is
    /// not blank.
    pub fn try_context_limit_exceeded(message: String) -> (result: Result<
        Self,
        InvalidModelProblem,
    >)
        ensures
            is_blank(message@) ==> result == Err::<Self, InvalidModelProblem>(
                InvalidModelProblem::EmptyMessage,
            ),
            !is_blank(message@) ==> (result matches Ok(ModelIssue::ContextLimitExceeded { message: m })
                && m@ == message@),
    {
        Ok(ModelIssue::ContextLimitExceeded { message: ProblemMessage::try_new(message)? })
    }

    /// Another issue, described by driver-defined extensions, if `message`
    /// is not blank.
    pub fn try_other(
        message: String,
        extensions: serde_json::Map<String, serde_json::Value>,
    ) -> (result: Result<Self, InvalidModelProblem>)
        ensures
            is_blank(message@) ==> result == Err::<Self, InvalidModelProblem>(
                InvalidModelProblem::EmptyMessage,
            ),
            !is_blank(message@) ==> (result matches Ok(ModelIssue::Other { message: m, extensions: x })
                && m@ == message@ && x == extensions),
    {
        Ok(ModelIssue::Other { message: ProblemMessage::try_new(message)?, extensions })
    }

    /// The issue's message.
    pub fn message(&self) -> (message: &str)
        ensures
            message@ == self.message_spec(),
    {
        match self {
            ModelIssue::Refusal { message } => message.as_str(),
            ModelIssue::ContextLimitExceeded { message } => message.as_str(),
            ModelIssue::Other { message, .. } => message.as_str(),
        }
    }

    /// The driver-defined extensions of an `Other` issue.
    pub fn extensions(&self) -> (extensions: Option<&serde_json::Map<String, serde_json::Value>>)
        ensures
            (match self {
                ModelIssue::Other { extensions: x, .. } => extensions == Some(x),
                _ => extensions is None,
            }),
    {
        match self {
            ModelIssue::Other { extensions, .. } => Some(extensions),
            ModelIssue::Refusal { .. } => None,
            ModelIssue::ContextLimitExceeded { .. } => None,
        }
    }

    /// An issue with the model's output is never retryable.
    pub fn retryable(&self) -> (retryable: bool)
        ensures
            !retryable,
    {
        false
    }

    /// Checks that the issue's message is not blank.
    pub fn ensure_valid(&self) -> (result: Result<(), InvalidModelProblem>)
        ensures
            result == (if is_blank(self.message_spec()) {
                Err(InvalidModelProblem::EmptyMessage)
            } else {
                Ok::<(), InvalidModelProblem>(())
            }),
    {
        match self {
            ModelIssue::Refusal { message } => message.ensure_valid(),
            ModelIssue::ContextLimitExceeded { message } => message.ensure_valid(),
            ModelIssue::Other { message, .. } => message.ensure_valid(),
        }
    }
}

/// A failure of the model invocation itself.
#[derive(Clone, Debug, PartialEq, Eq)]
pub enum InvocationError {
    Authentication { message: ProblemMessage },
    RateLimited { message: ProblemMessage },
    Transport { message: ProblemMessage },
    InvalidRequest { message: ProblemMessage },
    ProviderFailure { message: ProblemMessage },
    InvalidProviderResponse { message: ProblemMessage },
    StreamInterrupted { message: ProblemMessage },
}

impl InvocationError {
    /// The error's message.
    pub open spec fn message_spec(&self) -> Seq<char> {
        match self {
            InvocationError::Authentication { message } => message@,
            InvocationError::RateLimited { message } => message@,
            InvocationError::Transport { message } => message@,
            InvocationError::InvalidRequest { message } => message@,
            InvocationError::ProviderFailure { message } => message@,
            InvocationError::InvalidProviderResponse { message } => message@,
            InvocationError::StreamInterrupted { message } => message@,
        }
    }

    /// Rate limits, transport failures, provider failures and interrupted
    /// streams may pass when the invocation is repeated.
    pub open spec fn retryable_spec(&self) -> bool {
        match self {
            InvocationError::RateLimited { .. } => true,
            InvocationError::Transport { .. } => true,
            InvocationError::ProviderFailure { .. } => true,
            InvocationError::StreamInterrupted { .. } => true,
            _ => false,
        }
    }

    /// The provider rejected the credentials, if `message` is not blank.
    pub fn try_authentication(message: String) -> (result: Result<Self, InvalidModelProblem>)
        ensures
            is_blank(message@) ==> result == Err::<Self, InvalidModelProblem>(
                InvalidModelProblem::EmptyMessage,
            ),
            !is_blank(message@) ==> (result matches Ok(InvocationError::Authentication { message: m })
                && m@ == message@),
    {
        Ok(InvocationError::Authentication { message: ProblemMessage::try_new(message)? })
    }

    /// The provider limited the request rate, if `message` is not blank.
    pub fn try_rate_limited(message: String) -> (result: Result<Self, InvalidModelProblem>)
        ensures
            is_blank(message@) ==> result == Err::<Self, InvalidModelProblem>(
                InvalidModelProblem::EmptyMessage,
            ),
            !is_blank(message@) ==> (result matches Ok(InvocationError::RateLimited { message: m })
                && m@ == message@),
    {
        Ok(InvocationError::RateLimited { message: ProblemMessage::try_new(message)? })
    }

    /// The provider could not be reached, if `message` is not blank.
    pub fn try_transport(message: String) -> (result: Result<Self, InvalidModelProblem>)
        ensures
            is_blank(message@) ==> result == Err::<Self, InvalidModelProblem>(
                InvalidModelProblem::EmptyMessage,
            ),
            !is_blank(message@) ==> (result matches Ok(InvocationError::Transport { message: m })
                && m@ == message@),
    {
        Ok(InvocationError::Transport { message: ProblemMessage::try_new(message)? })
    }

    /// The provider rejected the request, if `message` is not blank.
    pub fn try_invalid_request(message: String) -> (result: Result<Self, InvalidModelProblem>)
        ensures
            is_blank(message@) ==> result == Err::<Self, InvalidModelProblem>(
                InvalidModelProblem::EmptyMessage,
            ),
            !is_blank(message@) ==> (result matches Ok(InvocationError::InvalidRequest { message: m })
                && m@ == message@),
    {
        Ok(InvocationError::InvalidRequest { message: ProblemMessage::try_new(message)? })
    }

    /// The provider failed, if `message` is not blank.
    pub fn try_provider_failure(message: String) -> (result: Result<Self, InvalidModelProblem>)
        ensures
            is_blank(message@) ==> result == Err::<Self, InvalidModelProblem>(
                InvalidModelProblem::EmptyMessage,
            ),
            !is_blank(message@) ==> (result matches Ok(InvocationError::ProviderFailure { message: m })
                && m@ == message@),
    {
        Ok(InvocationError::ProviderFailure { message: ProblemMessage::try_new(message)? })
    }

    /// The provider's response could not be understood, if `message` is not
    /// blank.
    pub fn try_invalid_provider_response(message: String) -> (result: Result<
        Self,
        InvalidModelProblem,
    >)
        ensures
            is_blank(message@) ==> result == Err::<Self, InvalidModelProblem>(
                InvalidModelProblem::EmptyMessage,
            ),
            !is_blank(message@) ==> (result matches Ok(
                InvocationError::InvalidProviderResponse { message: m },
            ) && m@ == message@),
    {
        Ok(InvocationError::InvalidProviderResponse { message: ProblemMessage::try_new(message)? })
    }

    /// The response stream ended early, if `message` is not blank.
    pub fn try_stream_interrupted(message: String) -> (result: Result<Self, InvalidModelProblem>)
        ensures
            is_blank(message@) ==> result == Err::<Self, InvalidModelProblem>(
                InvalidModelProblem::EmptyMessage,
            ),
            !is_blank(message@) ==> (result matches Ok(InvocationError::StreamInterrupted { message: m })
                && m@ == message@),
    {
        Ok(InvocationError::StreamInterrupted { message: ProblemMessage::try_new(message)? })
    }

    /// The error's message.
    pub fn message(&self) -> (message: &str)
        ensures
            message@ == self.message_spec(),
    {
        match self {
            InvocationError::Authentication { message } => message.as_str(),
            InvocationError::RateLimited { message } => message.as_str(),
            InvocationError::Transport { message } => message.as_str(),
            InvocationError::InvalidRequest { message } => message.as_str(),
            InvocationError::ProviderFailure { message } => message.as_str(),
            InvocationError::InvalidProviderResponse { message } => message.as_str(),
            InvocationError::StreamInterrupted { message } => message.as_str(),
        }
    }

    /// Whether repeating the invocation may succeed.
    pub fn retryable(&self) -> (retryable: bool)
        ensures
            retryable == self.retryable_spec(),
    {
        match self {
            InvocationError::RateLimited { .. } => true,
            InvocationError::Transport { .. } => true,
            InvocationError::ProviderFailure { .. } => true,
            InvocationError::StreamInterrupted { .. } => true,
            InvocationError::Authentication { .. } => false,
            InvocationError::InvalidRequest { .. } => false,
            InvocationError::InvalidProviderResponse { .. } => false,
        }
    }

    /// Checks that the error's message is not blank.
    pub fn ensure_valid(&self) -> (result: Result<(), InvalidModelProblem>)
        ensures
            result == (if is_blank(self.message_spec()) {
                Err(InvalidModelProblem::EmptyMessage)
            } else {
                Ok::<(), InvalidModelProblem>(())
            }),
    {
        match self {
            InvocationError::Authentication { message } => message.ensure_valid(),
            InvocationError::RateLimited { message } => message.ensure_valid(),
            InvocationError::Transport { message } => message.ensure_valid(),
            InvocationError::InvalidRequest { message } => message.ensure_valid(),
            InvocationError::ProviderFailure { message } => message.ensure_valid(),
            InvocationError::InvalidProviderResponse { message } => message.ensure_valid(),
            InvocationError::StreamInterrupted { message } => message.ensure_valid(),
        }
    }
}

/// The message of a problem.
#[derive(Clone, Debug, PartialEq, Eq)]
pub struct ProblemMessage(String);

impl View for ProblemMessage {
    type V = Seq<char>;

    closed spec fn view(&self) -> Seq<char> {
        self.0@
    }
}

impl ProblemMessage {
    /// A message, if it is not blank.
    pub fn try_new(message: String) -> (result: Result<Self, InvalidModelProblem>)
        ensures
            is_blank(message@) ==> result == Err::<Self, InvalidModelProblem>(
                InvalidModelProblem::EmptyMessage,
            ),
            !is_blank(message@) ==> (result matches Ok(m) && m@ == message@),
    {
        let message = ProblemMessage(message);
        message.ensure_valid()?;
        Ok(message)
    }

    /// A message as it was stored, not yet checked.
    pub fn from_stored(message: String) -> (result: Self)
        ensures
            result@ == message@,
    {
        ProblemMessage(message)
    }

    /// The message's text.
    pub fn as_str(&self) -> (text: &str)
        ensures
            text@ == self@,
    {
        self.0.as_str()
    }

    /// Checks that the message is not blank.
    pub fn ensure_valid(&self) -> (result: Result<(), InvalidModelProblem>)
        ensures
            result == (if is_blank(self@) {
                Err(InvalidModelProblem::EmptyMessage)
            } else {
                Ok::<(), InvalidModelProblem>(())
            }),
    {
        if is_blank_text(self.0.as_str()) {
            return Err(InvalidModelProblem::EmptyMessage);
        }
        Ok(())
    }
}

/// Why a problem is not valid.
#[derive(Clone, Copy, Debug, PartialEq, Eq, Structural)]
pub enum InvalidModelProblem {
    EmptyMessage,
}

impl InvalidModelProblem {
    /// The text the error is shown as.
    pub open spec fn text_spec(&self) -> Seq<char> {
        "model problem message must not be empty"@
    }

    /// The text the error is shown as.
    pub fn to_string(&self) -> (text: String)
        ensures
            text@ == self.text_spec(),
    {
        String::from_str("model problem message must not be empty")
    }
}

} // verus!
