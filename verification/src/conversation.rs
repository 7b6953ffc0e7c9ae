//! The conversation: an append-only, position-ordered record of semantic
//! events that share one conversation identifier.
pub mod event;
pub mod model;
pub mod model_problem;

use vstd::prelude::*;

use crate::conversation::event::{ConversationEvent, InvalidConversationEventKind};
use crate::identifier::ConversationId;
use crate::text::{decimal, decimal_spec, is_blank, trim, trim_spec};

verus! {

/// Whether the event at index `index` fits a conversation with identifier
/// `id`: it belongs to `id`, sits at position `index`, and is valid.
pub open spec fn event_fits(id: ConversationId, index: int, event: ConversationEvent) -> bool {
    &&& event.conversation_id == id
    &&& event.position == index
    &&& event.kind.validation_error() is None
}

/// Whether `error` is what `Conversation::from_events` reports for the
/// event at index `index` that does not fit a conversation with identifier
/// `id`. The checks are made in order: identifier, position, validity.
pub open spec fn describes_misfit(
    error: InvalidConversation,
    id: ConversationId,
    index: int,
    event: ConversationEvent,
) -> bool {
    if event.conversation_id != id {
        error == InvalidConversation::MixedConversationIds {
            expected: id,
            found: event.conversation_id,
        }
    } else if event.position != index {
        error == InvalidConversation::InvalidPosition { expected: index as u64, found: event.position }
    } else {
        error matches InvalidConversation::InvalidEvent { position, reason }
            && position == event.position
            && reason@ == event.kind.validation_error()->Some_0.text_spec()
    }
}

/// Whether `error` reports the first event of `events` that does not fit
/// the conversation named by the first event.
pub open spec fn reports_first_misfit(events: Seq<ConversationEvent>, error: InvalidConversation) -> bool {
    exists|index: int|
        #![trigger events[index]]
        0 <= index < events.len() && (forall|j: int|
            0 <= j < index ==> event_fits(events[0].conversation_id, j, #[trigger] events[j]))
            && !event_fits(events[0].conversation_id, index, events[index]) && describes_misfit(
            error,
            events[0].conversation_id,
            index,
            events[index],
        )
}

/// A well-formed conversation: at least one event, every event belongs to
/// `id`, the event at index `i` has position `i`, and every event is valid.
pub open spec fn conversation_well_formed(id: ConversationId, events: Seq<ConversationEvent>) -> bool {
    &&& events.len() > 0
    &&& forall|i: int| 0 <= i < events.len() ==> event_fits(id, i, #[trigger] events[i])
}

/// A validated conversation.
#[derive(Debug, PartialEq, Eq)]
pub struct Conversation {
    id: ConversationId,
    events: Vec<ConversationEvent>,
}

impl Conversation {
    #[verifier::type_invariant]
    spec fn well_formed(self) -> bool {
        conversation_well_formed(self.id, self.events@)
    }

    /// The conversation's identifier.
    pub closed spec fn id_spec(&self) -> ConversationId {
        self.id
    }

    /// The conversation's events, in position order.
    pub closed spec fn events_spec(&self) -> Seq<ConversationEvent> {
        self.events@
    }

    /// Validates `events` as a conversation. The first event names the
    /// conversation; the events are checked in order, and the first that
    /// belongs to another conversation, sits at another position than its
    /// index, or is not valid is reported.
    pub fn from_events(events: Vec<ConversationEvent>) -> (result: Result<Self, InvalidConversation>)
        ensures
            events@.len() == 0 ==> result == Err::<Self, InvalidConversation>(
                InvalidConversation::Empty,
            ),
            events@.len() > 0 ==> (result is Ok <==> conversation_well_formed(
                events@[0].conversation_id,
                events@,
            )),
            result matches Ok(conversation) ==> conversation.id_spec() == events@[0].conversation_id
                && conversation.events_spec() == events@,
            result matches Err(error) ==> events@.len() > 0 ==> reports_first_misfit(events@, error),
    {
        if events.len() == 0 {
            return Err(InvalidConversation::Empty);
        }
        let conversation_id = events[0].conversation_id;
        let mut index: usize = 0;
        while index < events.len()
            invariant
                0 < events@.len(),
                conversation_id == events@[0].conversation_id,
                index <= events@.len(),
                forall|j: int| 0 <= j < index ==> event_fits(conversation_id, j, #[trigger] events@[j]),
            decreases events.len() - index,
        {
            let event = &events[index];
            proof {
                assert(events@[index as int] == *event);
            }
            if event.conversation_id != conversation_id {
                assert(describes_misfit(
                    InvalidConversation::MixedConversationIds {
                        expected: conversation_id,
                        found: event.conversation_id,
                    },
                    conversation_id,
                    index as int,
                    events@[index as int],
                ));
                return Err(
                    InvalidConversation::MixedConversationIds {
                        expected: conversation_id,
                        found: event.conversation_id,
                    },
                );
            }
            let expected_position = index as u64;
            if event.position != expected_position {
                assert(describes_misfit(
                    InvalidConversation::InvalidPosition {
                        expected: expected_position,
                        found: event.position,
                    },
                    conversation_id,
                    index as int,
                    events@[index as int],
                ));
                return Err(
                    InvalidConversation::InvalidPosition {
                        expected: expected_position,
                        found: event.position,
                    },
                );
            }
            match event.kind.ensure_valid() {
                Ok(()) => {},
                Err(error) => {
                    return Err(
                        InvalidConversation::InvalidEvent {
                            position: event.position,
                            reason: error.to_string(),
                        },
                    );
                },
            }
            assert(event_fits(conversation_id, index as int, events@[index as int]));
            index = index + 1;
        }
        assert(conversation_well_formed(conversation_id, events@));
        Ok(Conversation { id: conversation_id, events })
    }

    /// The conversation's identifier.
    pub fn id(&self) -> (id: ConversationId)
        ensures
            id == self.id_spec(),
            conversation_well_formed(self.id_spec(), self.events_spec()),
    {
        proof {
            use_type_invariant(self);
        }
        self.id
    }

    /// The conversation's events, in position order.
    pub fn events(&self) -> (events: &[ConversationEvent])
        ensures
            events@ == self.events_spec(),
            conversation_well_formed(self.id_spec(), events@),
    {
        proof {
            use_type_invariant(self);
        }
        self.events.as_slice()
    }
}

/// Why a sequence of events is not a conversation.
#[derive(Clone, Debug, PartialEq, Eq)]
#[allow(inconsistent_fields)]
pub enum InvalidConversation {
    Empty,
    MixedConversationIds { expected: ConversationId, found: ConversationId },
    InvalidPosition { expected: u64, found: u64 },
    InvalidEvent { position: u64, reason: String },
    TooManyEvents,
}

impl InvalidConversation {
    /// The text the error is shown as.
    pub open spec fn text_spec(&self) -> Seq<char> {
        match self {
            InvalidConversation::Empty => "a conversation must contain at least one event"@,
            InvalidConversation::MixedConversationIds { expected, found } => "conversation event belongs to "@
                + found.text_spec() + ", expected "@ + expected.text_spec(),
            InvalidConversation::InvalidPosition { expected, found } => "expected conversation event position "@
                + decimal_spec(*expected as nat) + ", found "@ + decimal_spec(*found as nat),
            InvalidConversation::InvalidEvent { position, reason } => "invalid conversation event at position "@
                + decimal_spec(*position as nat) + ": "@ + reason@,
            InvalidConversation::TooManyEvents => "conversation contains too many events"@,
        }
    }

    /// The text the error is shown as.
    pub fn to_string(&self) -> (text: String)
        ensures
            text@ == self.text_spec(),
    {
        match self {
            InvalidConversation::Empty => String::from_str(
                "a conversation must contain at least one event",
            ),
            InvalidConversation::MixedConversationIds { expected, found } => {
                let mut text = String::from_str("conversation event belongs to ");
                text.append(found.to_string().as_str());
                text.append(", expected ");
                text.append(expected.to_string().as_str());
                text
            },
            InvalidConversation::InvalidPosition { expected, found } => {
                let mut text = String::from_str("expected conversation event position ");
                text.append(decimal(*expected).as_str());
                text.append(", found ");
                text.append(decimal(*found).as_str());
                text
            },
            InvalidConversation::InvalidEvent { position, reason } => {
                let mut text = String::from_str("invalid conversation event at position ");
                text.append(decimal(*position).as_str());
                text.append(": ");
                text.append(reason.as_str());
                text
            },
            InvalidConversation::TooManyEvents => String::from_str(
                "conversation contains too many events",
            ),
        }
    }
}

/// A user's prompt: the given text without surrounding white space, which
/// is not empty.
#[derive(Clone, Debug, PartialEq, Eq)]
pub struct UserPrompt(String);

impl View for UserPrompt {
    type V = Seq<char>;

    closed spec fn view(&self) -> Seq<char> {
        self.0@
    }
}

impl UserPrompt {
    /// The prompt's text.
    pub fn text(&self) -> (text: &str)
        ensures
            text@ == self@,
    {
        self.0.as_str()
    }

    /// Reads a prompt: surrounding white space is removed, and what remains
    /// must not be empty.
    pub fn from_str(unvalidated_text: &str) -> (result: Result<Self, InvalidUserPrompt>)
        ensures
            trim_spec(unvalidated_text@).len() == 0 ==> result == Err::<Self, InvalidUserPrompt>(
                InvalidUserPrompt,
            ),
            trim_spec(unvalidated_text@).len() > 0 ==> (result matches Ok(prompt) && prompt@
                == trim_spec(unvalidated_text@)),
    {
        let normalized_text = trim(unvalidated_text);
        if normalized_text.is_empty() {
            return Err(InvalidUserPrompt);
        }
        Ok(UserPrompt(normalized_text.to_owned()))
    }

    /// Normalizing a prompt is idempotent: the text of a prompt that
    /// `from_str` read from `text` reads back as the same prompt.
    pub proof fn lemma_normalized_text_reads_back(text: Seq<char>)
        ensures
            trim_spec(trim_spec(text)) == trim_spec(text),
    {
        crate::text::lemma_trim_idempotent(text);
    }
}

/// A prompt that is empty once surrounding white space is removed.
#[derive(Clone, Copy, Debug, PartialEq, Eq, Structural)]
pub struct InvalidUserPrompt;

impl InvalidUserPrompt {
    /// The text the error is shown as.
    pub fn to_string(&self) -> (text: String)
        ensures
            text@ == "user prompt must not be empty"@,
    {
        String::from_str("user prompt must not be empty")
    }
}

} // verus!
