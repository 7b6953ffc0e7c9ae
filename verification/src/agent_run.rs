//! Records of agent runs: the operational history of model invocations,
//! kept apart from the semantic conversation.
use vstd::prelude::*;

use crate::identifier::{AgentRunEventId, AgentRunId, ConversationId};
use crate::text::same_text;

verus! {

/// `Clone` of `serde_json::Value` (a provider payload), which derives
/// `Clone`. Nothing is claimed of the copy: the value is opaque here.
pub assume_specification[ <serde_json::Value as Clone>::clone ](
    value: &serde_json::Value,
) -> serde_json::Value;

/// An agent run of a conversation.
#[derive(Clone, Debug, PartialEq, Eq)]
pub struct AgentRun {
    pub id: AgentRunId,
    pub conversation_id: ConversationId,
    pub created_at_milliseconds: u64,
}

/// Something that happened during an agent run.
#[derive(Clone, Debug, PartialEq)]
pub enum AgentRunEvent {
    RunStarted { request: ModelRequestSnapshot },
    ModelProviderEvent {
        provider: String,
        model: String,
        event_type: String,
        payload: serde_json::Value,
    },
    RunCompleted { response_id: String },
    RunFailed { message: String },
}

/// The request an agent run sent to the provider.
#[derive(Clone, Debug, PartialEq)]
pub struct ModelRequestSnapshot {
    pub provider: String,
    pub model: String,
    pub response_verbosity: Option<ResponseVerbosity>,
    pub previous_response_id: Option<String>,
    pub input: serde_json::Value,
}

/// How verbose a model's response should be.
#[derive(Clone, Copy, Debug, PartialEq, Eq, Structural)]
pub enum ResponseVerbosity {
    Low,
    Medium,
    High,
}

impl ResponseVerbosity {
    /// The verbosity's name.
    pub open spec fn name(self) -> Seq<char> {
        match self {
            ResponseVerbosity::Low => "low"@,
            ResponseVerbosity::Medium => "medium"@,
            ResponseVerbosity::High => "high"@,
        }
    }

    /// The verbosity's name: `low`, `medium` or `high`.
    pub fn as_str(self) -> (name: &'static str)
        ensures
            name@ == self.name(),
    {
        match self {
            ResponseVerbosity::Low => "low",
            ResponseVerbosity::Medium => "medium",
            ResponseVerbosity::High => "high",
        }
    }

    /// The verbosity named `unvalidated_value`, which must be `low`,
    /// `medium` or `high` exactly.
    pub fn from_str(unvalidated_value: &str) -> (result: Result<Self, InvalidResponseVerbosity>)
        ensures
            unvalidated_value@ == "low"@ ==> result == Ok::<Self, InvalidResponseVerbosity>(
                ResponseVerbosity::Low,
            ),
            unvalidated_value@ == "medium"@ ==> result == Ok::<Self, InvalidResponseVerbosity>(
                ResponseVerbosity::Medium,
            ),
            unvalidated_value@ == "high"@ ==> result == Ok::<Self, InvalidResponseVerbosity>(
                ResponseVerbosity::High,
            ),
            unvalidated_value@ != "low"@ && unvalidated_value@ != "medium"@ && unvalidated_value@
                != "high"@ ==> result == Err::<Self, InvalidResponseVerbosity>(
                InvalidResponseVerbosity,
            ),
    {
        proof {
            reveal_strlit("low");
            reveal_strlit("medium");
            reveal_strlit("high");
            assert("low"@ != "medium"@ && "low"@ != "high"@ && "medium"@ != "high"@) by {
                assert("low"@[0] != "medium"@[0] && "low"@[0] != "high"@[0] && "medium"@[0]
                    != "high"@[0]);
            }
        }
        if same_text(unvalidated_value, "low") {
            Ok(ResponseVerbosity::Low)
        } else if same_text(unvalidated_value, "medium") {
            Ok(ResponseVerbosity::Medium)
        } else if same_text(unvalidated_value, "high") {
            Ok(ResponseVerbosity::High)
        } else {
            Err(InvalidResponseVerbosity)
        }
    }

    /// Reading a verbosity's name gives the verbosity back: no two
    /// verbosities share a name.
    pub proof fn lemma_name_reads_back(self, other: ResponseVerbosity)
        requires
            other.name() == self.name(),
        ensures
            other == self,
    {
        reveal_strlit("low");
        reveal_strlit("medium");
        reveal_strlit("high");
        assert("low"@[0] != "medium"@[0] && "low"@[0] != "high"@[0] && "medium"@[0] != "high"@[0]);
    }
}

/// A verbosity name other than `low`, `medium` or `high`.
#[derive(Clone, Copy, Debug, PartialEq, Eq, Structural)]
pub struct InvalidResponseVerbosity;

impl InvalidResponseVerbosity {
    /// The text the error is shown as.
    pub fn to_string(&self) -> (text: String)
        ensures
            text@ == "verbosity must be low, medium, or high"@,
    {
        String::from_str("verbosity must be low, medium, or high")
    }
}

/// One stored event of an agent run.
#[derive(Clone, Debug, PartialEq)]
pub struct StoredAgentRunEvent {
    pub position: u64,
    pub id: AgentRunEventId,
    pub timestamp_milliseconds: u64,
    pub schema_version: u32,
    pub event: AgentRunEvent,
}

} // verus!
