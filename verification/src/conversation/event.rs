//! The events of a conversation and their validation: user input, model
//! output (final responses and other communications) and problems.
use vstd::prelude::*;

use crate::conversation::model::ModelSource;
use crate::conversation::model_problem::{InvalidModelProblem, ModelProblem};
use crate::identifier::{ConversationEventId, ConversationId};
use crate::text::{is_blank, is_blank_text};

verus! {

#[verifier::external_type_specification]
#[verifier::external_body]
pub struct ExOffsetDateTime(time::OffsetDateTime);

/// `Clone` of `time::OffsetDateTime`, which derives `Clone` and `Copy`: the
/// copy is the same value.
pub assume_specification[ <time::OffsetDateTime as Clone>::clone ](
    timestamp: &time::OffsetDateTime,
) -> (copy: time::OffsetDateTime)
    ensures
        copy == *timestamp,
;

/// One stored event: the envelope that the event log assigns (conversation,
/// position, identity, time, schema version) around what happened.
#[derive(Clone, Debug, PartialEq, Eq)]
pub struct ConversationEvent {
    pub conversation_id: ConversationId,
    pub position: u64,
    pub id: ConversationEventId,
    pub timestamp: time::OffsetDateTime,
    pub schema_version: u32,
    pub kind: ConversationEventKind,
}

/// What happened in the conversation.
#[derive(Clone, Debug, PartialEq, Eq)]
pub enum ConversationEventKind {
    User { content: Vec<UserContent> },
    Model { source: ModelSource, event: ModelEvent },
    Problem { problem: ModelProblem },
}

impl ConversationEventKind {
    /// Why the event is not valid, if it is not.
    pub open spec fn validation_error(&self) -> Option<InvalidConversationEventKind> {
        match self {
            ConversationEventKind::User { .. } => None,
            ConversationEventKind::Model { event, .. } => match event.validation_error() {
                Some(error) => Some(InvalidConversationEventKind::InvalidModelEvent(error)),
                None => None,
            },
            ConversationEventKind::Problem { problem } => if problem.valid() {
                None
            } else {
                Some(
                    InvalidConversationEventKind::InvalidConversationProblem(
                        InvalidModelProblem::EmptyMessage,
                    ),
                )
            },
        }
    }

    /// Checks the event: user input is always valid; model output and
    /// problems must carry messages that are not blank.
    pub fn ensure_valid(&self) -> (result: Result<(), InvalidConversationEventKind>)
        ensures
            result == (match self.validation_error() {
                Some(error) => Err(error),
                None => Ok::<(), InvalidConversationEventKind>(()),
            }),
    {
        match self {
            ConversationEventKind::User { .. } => Ok(()),
            ConversationEventKind::Model { event, .. } => match event.ensure_valid() {
                Ok(()) => Ok(()),
                Err(error) => Err(InvalidConversationEventKind::InvalidModelEvent(error)),
            },
            ConversationEventKind::Problem { problem } => match problem.ensure_valid() {
                Ok(()) => Ok(()),
                Err(error) => Err(InvalidConversationEventKind::InvalidConversationProblem(error)),
            },
        }
    }
}

/// Why an event is not valid.
#[derive(Clone, Copy, Debug, PartialEq, Eq, Structural)]
pub enum InvalidConversationEventKind {
    InvalidModelEvent(InvalidModelEvent),
    InvalidConversationProblem(InvalidModelProblem),
}

impl InvalidConversationEventKind {
    /// The text the error is shown as.
    pub open spec fn text_spec(&self) -> Seq<char> {
        match self {
            InvalidConversationEventKind::InvalidModelEvent(error) => error.text_spec(),
            InvalidConversationEventKind::InvalidConversationProblem(error) => error.text_spec(),
        }
    }

    /// The text the error is shown as.
    pub fn to_string(&self) -> (text: String)
        ensures
            text@ == self.text_spec(),
    {
        match self {
            InvalidConversationEventKind::InvalidModelEvent(error) => error.to_string(),
            InvalidConversationEventKind::InvalidConversationProblem(error) => error.to_string(),
        }
    }
}

/// Output of a model: its final response, or another communication.
#[derive(Clone, Debug, PartialEq, Eq)]
pub enum ModelEvent {
    AssistantResponse(AssistantResponse),
    Communication(ModelCommunication),
}

/// What a model event says, as a value: a final response with its message,
/// or a communication with its message, importance and subtype.
pub enum ModelEventView {
    Response(Seq<char>),
    Communication { message: Seq<char>, importance: ModelEventImportance, subtype: Seq<char> },
}

impl View for ModelEvent {
    type V = ModelEventView;

    open spec fn view(&self) -> ModelEventView {
        match self {
            ModelEvent::AssistantResponse(response) => ModelEventView::Response(response.message_spec()),
            ModelEvent::Communication(communication) => ModelEventView::Communication {
                message: communication.message_spec(),
                importance: communication.importance_spec(),
                subtype: communication.subtype_spec(),
            },
        }
    }
}

impl ModelEvent {
    /// The event's message.
    pub open spec fn message_spec(&self) -> Seq<char> {
        match self {
            ModelEvent::AssistantResponse(response) => response.message_spec(),
            ModelEvent::Communication(communication) => communication.message_spec(),
        }
    }

    /// The event's importance: a final response is important; a
    /// communication is as important as it says.
    pub open spec fn importance_spec(&self) -> ModelEventImportance {
        match self {
            ModelEvent::AssistantResponse(_) => ModelEventImportance::Important,
            ModelEvent::Communication(communication) => communication.importance_spec(),
        }
    }

    /// Why the event is not valid, if it is not.
    pub open spec fn validation_error(&self) -> Option<InvalidModelEvent> {
        match self {
            ModelEvent::AssistantResponse(response) => match response.validation_error() {
                Some(error) => Some(InvalidModelEvent::AssistantResponse(error)),
                None => None,
            },
            ModelEvent::Communication(communication) => match communication.validation_error() {
                Some(error) => Some(InvalidModelEvent::ModelCommunication(error)),
                None => None,
            },
        }
    }

    /// The event's message.
    pub fn message(&self) -> (message: &str)
        ensures
            message@ == self.message_spec(),
    {
        match self {
            ModelEvent::AssistantResponse(response) => response.message(),
            ModelEvent::Communication(communication) => communication.message(),
        }
    }

    /// The event's importance.
    pub fn importance(&self) -> (importance: ModelEventImportance)
        ensures
            importance == self.importance_spec(),
    {
        match self {
            ModelEvent::AssistantResponse(_) => ModelEventImportance::Important,
            ModelEvent::Communication(communication) => communication.importance(),
        }
    }

    /// Checks the event's message (and a communication's subtype).
    pub fn ensure_valid(&self) -> (result: Result<(), InvalidModelEvent>)
        ensures
            result == (match self.validation_error() {
                Some(error) => Err(error),
                None => Ok::<(), InvalidModelEvent>(()),
            }),
    {
        match self {
            ModelEvent::AssistantResponse(response) => match response.ensure_valid() {
                Ok(()) => Ok(()),
                Err(error) => Err(InvalidModelEvent::AssistantResponse(error)),
            },
            ModelEvent::Communication(communication) => match communication.ensure_valid() {
                Ok(()) => Ok(()),
                Err(error) => Err(InvalidModelEvent::ModelCommunication(error)),
            },
        }
    }
}

/// Why a model event is not valid.
#[derive(Clone, Copy, Debug, PartialEq, Eq, Structural)]
pub enum InvalidModelEvent {
    AssistantResponse(InvalidAssistantResponse),
    ModelCommunication(InvalidModelCommunication),
}

impl InvalidModelEvent {
    /// The text the error is shown as.
    pub open spec fn text_spec(&self) -> Seq<char> {
        match self {
            InvalidModelEvent::AssistantResponse(error) => error.text_spec(),
            InvalidModelEvent::ModelCommunication(error) => error.text_spec(),
        }
    }

    /// The text the error is shown as.
    pub fn to_string(&self) -> (text: String)
        ensures
            text@ == self.text_spec(),
    {
        match self {
            InvalidModelEvent::AssistantResponse(error) => error.to_string(),
            InvalidModelEvent::ModelCommunication(error) => error.to_string(),
        }
    }
}

/// The model's final response. Its message is kept exactly as given,
/// surrounding white space included.
#[derive(Clone, Debug, PartialEq, Eq)]
pub struct AssistantResponse {
    message: String,
}

impl AssistantResponse {
    /// The response's message.
    pub closed spec fn message_spec(&self) -> Seq<char> {
        self.message@
    }

    /// Why the response is not valid, if it is not: a blank message.
    pub open spec fn validation_error(&self) -> Option<InvalidAssistantResponse> {
        if is_blank(self.message_spec()) {
            Some(InvalidAssistantResponse::EmptyMessage)
        } else {
            None
        }
    }

    /// A response with `message`, unless the message is blank.
    pub fn new(message: String) -> (result: Result<Self, InvalidAssistantResponse>)
        ensures
            is_blank(message@) ==> result == Err::<Self, InvalidAssistantResponse>(
                InvalidAssistantResponse::EmptyMessage,
            ),
            !is_blank(message@) ==> (result matches Ok(response) && response.message_spec()
                == message@),
    {
        let response = AssistantResponse { message };
        response.ensure_valid()?;
        Ok(response)
    }

    /// A response as it was stored, not yet checked.
    pub fn from_stored(message: String) -> (response: Self)
        ensures
            response.message_spec() == message@,
    {
        AssistantResponse { message }
    }

    /// The response's message.
    pub fn message(&self) -> (message: &str)
        ensures
            message@ == self.message_spec(),
    {
        self.message.as_str()
    }

    /// Checks that the message is not blank.
    pub fn ensure_valid(&self) -> (result: Result<(), InvalidAssistantResponse>)
        ensures
            result == (match self.validation_error() {
                Some(error) => Err(error),
                None => Ok::<(), InvalidAssistantResponse>(()),
            }),
    {
        if is_blank_text(self.message.as_str()) {
            return Err(InvalidAssistantResponse::EmptyMessage);
        }
        Ok(())
    }
}

/// Why an assistant response is not valid.
#[derive(Clone, Copy, Debug, PartialEq, Eq, Structural)]
pub enum InvalidAssistantResponse {
    EmptyMessage,
}

impl InvalidAssistantResponse {
    /// The text the error is shown as.
    pub open spec fn text_spec(&self) -> Seq<char> {
        "assistant response message must not be empty"@
    }

    /// The text the error is shown as.
    pub fn to_string(&self) -> (text: String)
        ensures
            text@ == self.text_spec(),
    {
        String::from_str("assistant response message must not be empty")
    }
}

/// Another communication of the model, such as exposed reasoning, with a
/// driver-defined subtype and an importance. Message and subtype are kept
/// exactly as given.
#[derive(Clone, Debug, PartialEq, Eq)]
pub struct ModelCommunication {
    message: String,
    importance: ModelEventImportance,
    subtype: String,
}

impl ModelCommunication {
    /// The communication's message.
    pub closed spec fn message_spec(&self) -> Seq<char> {
        self.message@
    }

    /// The communication's importance.
    pub closed spec fn importance_spec(&self) -> ModelEventImportance {
        self.importance
    }

    /// The communication's driver-defined subtype.
    pub closed spec fn subtype_spec(&self) -> Seq<char> {
        self.subtype@
    }

    /// Why the communication is not valid, if it is not: a blank message,
    /// else a blank subtype.
    pub open spec fn validation_error(&self) -> Option<InvalidModelCommunication> {
        if is_blank(self.message_spec()) {
            Some(InvalidModelCommunication::EmptyMessage)
        } else if is_blank(self.subtype_spec()) {
            Some(InvalidModelCommunication::EmptySubtype)
        } else {
            None
        }
    }

    /// A communication, unless its message or subtype is blank.
    pub fn new(message: String, importance: ModelEventImportance, subtype: String) -> (result:
        Result<Self, InvalidModelCommunication>)
        ensures
            is_blank(message@) ==> result == Err::<Self, InvalidModelCommunication>(
                InvalidModelCommunication::EmptyMessage,
            ),
            !is_blank(message@) && is_blank(subtype@) ==> result == Err::<
                Self,
                InvalidModelCommunication,
            >(InvalidModelCommunication::EmptySubtype),
            !is_blank(message@) && !is_blank(subtype@) ==> (result matches Ok(communication)
                && communication.message_spec() == message@ && communication.importance_spec()
                == importance && communication.subtype_spec() == subtype@),
    {
        let communication = ModelCommunication { message, importance, subtype };
        communication.ensure_valid()?;
        Ok(communication)
    }

    /// A communication as it was stored, not yet checked.
    pub fn from_stored(
        message: String,
        importance: ModelEventImportance,
        subtype: String,
    ) -> (communication: Self)
        ensures
            communication.message_spec() == message@,
            communication.importance_spec() == importance,
            communication.subtype_spec() == subtype@,
    {
        ModelCommunication { message, importance, subtype }
    }

    /// The communication's message.
    pub fn message(&self) -> (message: &str)
        ensures
            message@ == self.message_spec(),
    {
        self.message.as_str()
    }

    /// The communication's importance.
    pub fn importance(&self) -> (importance: ModelEventImportance)
        ensures
            importance == self.importance_spec(),
    {
        self.importance
    }

    /// The communication's subtype.
    pub fn subtype(&self) -> (subtype: &str)
        ensures
            subtype@ == self.subtype_spec(),
    {
        self.subtype.as_str()
    }

    /// Checks that neither the message nor the subtype is blank.
    pub fn ensure_valid(&self) -> (result: Result<(), InvalidModelCommunication>)
        ensures
            result == (match self.validation_error() {
                Some(error) => Err(error),
                None => Ok::<(), InvalidModelCommunication>(()),
            }),
    {
        if is_blank_text(self.message.as_str()) {
            return Err(InvalidModelCommunication::EmptyMessage);
        }
        if is_blank_text(self.subtype()) {
            return Err(InvalidModelCommunication::EmptySubtype);
        }
        Ok(())
    }
}

/// Why a model communication is not valid.
#[derive(Clone, Copy, Debug, PartialEq, Eq, Structural)]
pub enum InvalidModelCommunication {
    EmptyMessage,
    EmptySubtype,
}

impl InvalidModelCommunication {
    /// The text the error is shown as.
    pub open spec fn text_spec(&self) -> Seq<char> {
        match self {
            InvalidModelCommunication::EmptyMessage => "model communication message must not be empty"@,
            InvalidModelCommunication::EmptySubtype => "model communication subtype must not be empty"@,
        }
    }

    /// The text the error is shown as.
    pub fn to_string(&self) -> (text: String)
        ensures
            text@ == self.text_spec(),
    {
        match self {
            InvalidModelCommunication::EmptyMessage => String::from_str(
                "model communication message must not be empty",
            ),
            InvalidModelCommunication::EmptySubtype => String::from_str(
                "model communication subtype must not be empty",
            ),
        }
    }
}

/// How important a model event is, from least to most: detailed,
/// interesting, important.
#[derive(Clone, Copy, Debug, PartialEq, Eq, PartialOrd, Ord, Hash, Structural)]
pub enum ModelEventImportance {
    Detailed,
    Interesting,
    Important,
}

impl ModelEventImportance {
    /// The importance's place in the order: 0, 1 or 2.
    pub open spec fn rank(self) -> nat {
        match self {
            ModelEventImportance::Detailed => 0,
            ModelEventImportance::Interesting => 1,
            ModelEventImportance::Important => 2,
        }
    }

    /// Whether this importance is at least `other` (`self >= other`).
    pub fn at_least(self, other: ModelEventImportance) -> (result: bool)
        ensures
            result == (self.rank() >= other.rank()),
    {
        let own: u8 = match self {
            ModelEventImportance::Detailed => 0,
            ModelEventImportance::Interesting => 1,
            ModelEventImportance::Important => 2,
        };
        let others: u8 = match other {
            ModelEventImportance::Detailed => 0,
            ModelEventImportance::Interesting => 1,
            ModelEventImportance::Important => 2,
        };
        own >= others
    }
}

/// One part of a user's input.
#[derive(Clone, Debug, PartialEq, Eq)]
pub enum UserContent {
    Text(String),
}

} // verus!
