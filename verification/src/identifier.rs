//! Strongly typed UUIDv7 identifiers of conversations, conversation events,
//! agent runs and agent-run events. Each is written `<prefix>_<32 hex digits>`
//! for people and stored under its bare 32 hex digits.
use vstd::arithmetic::div_mod::lemma_mod_breakdown;
use vstd::prelude::*;

verus! {

#[verifier::external_type_specification]
#[verifier::external_body]
pub struct ExUuidError(uuid::Error);

/// The lower-case hexadecimal digit for `digit` (which is below sixteen).
pub open spec fn hex_digit_char(digit: nat) -> char {
    if digit < 10 {
        crate::text::digit_char(digit)
    } else if digit == 10 {
        'a'
    } else if digit == 11 {
        'b'
    } else if digit == 12 {
        'c'
    } else if digit == 13 {
        'd'
    } else if digit == 14 {
        'e'
    } else {
        'f'
    }
}

/// Whether `c` is a hexadecimal digit of either case.
pub open spec fn is_hex_char(c: char) -> bool {
    ('0' <= c && c <= '9') || ('a' <= c && c <= 'f') || ('A' <= c && c <= 'F')
}

/// The value of the hexadecimal digit `c`.
pub open spec fn hex_char_value(c: char) -> nat {
    if '0' <= c && c <= '9' {
        (c as nat - '0' as nat) as nat
    } else if 'a' <= c && c <= 'f' {
        (c as nat - 'a' as nat + 10) as nat
    } else {
        (c as nat - 'A' as nat + 10) as nat
    }
}

/// Every character of `s` is a hexadecimal digit.
pub open spec fn is_hex_text(s: Seq<char>) -> bool {
    forall|i: int| 0 <= i < s.len() ==> is_hex_char(#[trigger] s[i])
}

/// The number written by the hexadecimal digits `s`, most significant first.
pub open spec fn hex_value(s: Seq<char>) -> nat
    decreases s.len(),
{
    if s.len() == 0 {
        0
    } else {
        16 * hex_value(s.drop_last()) + hex_char_value(s.last())
    }
}

/// The last `width` lower-case hexadecimal digits of `value`, zero-padded
/// on the left.
pub open spec fn lower_hex_digits(value: nat, width: nat) -> Seq<char>
    decreases width,
{
    if width == 0 {
        Seq::empty()
    } else {
        lower_hex_digits(value / 16, (width - 1) as nat).push(hex_digit_char(value % 16))
    }
}

/// The simple form of a UUID: its 128 bits as 32 lower-case hexadecimal digits.
pub open spec fn simple_text(value: u128) -> Seq<char> {
    lower_hex_digits(value as nat, 32)
}

/// What `uuid::Uuid::parse_str` makes of `text`: the UUID's 128 bits, or
/// `None` where it fails.
pub uninterp spec fn uuid_text_value(text: Seq<char>) -> Option<u128>;

/// Calls `uuid::Uuid::now_v7` and returns the new UUID's bits
/// (`Uuid::as_u128`). The bits depend on the clock and on chance; what is
/// stated is only that the version field (bits 76 to 79) holds 7.
#[verifier::external_body]
fn new_uuid_v7() -> (value: u128)
    ensures
        (value >> 76u128) & 0xfu128 == 7,
{
    uuid::Uuid::now_v7().as_u128()
}

/// Calls `uuid::Uuid::from_u128(value).simple().to_string()`: the UUID's
/// bytes, most significant first, as 32 lower-case hexadecimal digits.
#[verifier::external_body]
fn uuid_simple_text(value: u128) -> (text: String)
    ensures
        text@ == simple_text(value),
{
    uuid::Uuid::from_u128(value).simple().to_string()
}

/// Calls `uuid::Uuid::parse_str`. Its result is named `uuid_text_value`;
/// the source shows in a few lines what it does with 32 hexadecimal digits
/// (either case): they are the UUID's bits, most significant first. The
/// hyphenated, braced and URN forms it also accepts are left to the name.
#[verifier::external_body]
fn parse_uuid(text: &str) -> (result: Result<u128, uuid::Error>)
    ensures
        result is Ok <==> uuid_text_value(text@) is Some,
        result matches Ok(value) ==> uuid_text_value(text@) == Some(value),
        text@.len() == 32 && is_hex_text(text@) ==> result is Ok,
        text@.len() == 32 && is_hex_text(text@) ==> result->Ok_0 as nat == hex_value(text@),
{
    uuid::Uuid::parse_str(text).map(|uuid| uuid.as_u128())
}

proof fn lemma_hex_digit_round_trip(digit: nat)
    requires
        digit < 16,
    ensures
        is_hex_char(hex_digit_char(digit)),
        hex_char_value(hex_digit_char(digit)) == digit,
{
}

proof fn lemma_lower_hex_digits(value: nat, width: nat)
    ensures
        lower_hex_digits(value, width).len() == width,
        is_hex_text(lower_hex_digits(value, width)),
        hex_value(lower_hex_digits(value, width)) == value % pow16(width),
    decreases width,
{
    if width > 0 {
        let rest = lower_hex_digits(value / 16, (width - 1) as nat);
        let digits = lower_hex_digits(value, width);
        lemma_lower_hex_digits(value / 16, (width - 1) as nat);
        lemma_hex_digit_round_trip(value % 16);
        assert(digits.drop_last() =~= rest);
        assert(pow16(width) == 16 * pow16((width - 1) as nat));
        lemma_pow16_positive((width - 1) as nat);
        lemma_mod_breakdown(value as int, 16, pow16((width - 1) as nat) as int);
        assert forall|i: int| 0 <= i < digits.len() implies is_hex_char(#[trigger] digits[i]) by {
            if i < rest.len() {
                assert(digits[i] == rest[i]);
            }
        }
    }
}

spec fn pow16(k: nat) -> nat
    decreases k,
{
    if k == 0 {
        1
    } else {
        16 * pow16((k - 1) as nat)
    }
}

proof fn lemma_pow16_positive(k: nat)
    ensures
        pow16(k) > 0,
    decreases k,
{
    if k > 0 {
        lemma_pow16_positive((k - 1) as nat);
    }
}

/// The simple form of a UUID is 32 hexadecimal digits whose value is the
/// UUID's bits.
pub proof fn lemma_simple_text(value: u128)
    ensures
        simple_text(value).len() == 32,
        is_hex_text(simple_text(value)),
        hex_value(simple_text(value)) == value,
{
    lemma_lower_hex_digits(value as nat, 32);
    assert(pow16(32) == 0x1_0000_0000_0000_0000_0000_0000_0000_0000nat) by {
        reveal_with_fuel(pow16, 33);
    }
}

/// An identifier written in a form that does not name a UUID.
#[derive(Debug)]
pub struct InvalidIdentifier(pub uuid::Error);

/// Identity of a conversation.
#[derive(Clone, Copy, Debug, PartialEq, Eq, Hash, Structural)]
pub struct ConversationId {
    uuid: u128,
}

impl View for ConversationId {
    type V = u128;

    closed spec fn view(&self) -> u128 {
        self.uuid
    }
}

impl ConversationId {
    /// The text an identifier is written as: `conversation_` and the
    /// simple form of its UUID.
    pub open spec fn text_spec(self) -> Seq<char> {
        "conversation_"@ + simple_text(self@)
    }

    /// A fresh identifier (UUIDv7).
    pub fn new() -> (id: Self)
        ensures
            (id@ >> 76u128) & 0xfu128 == 7,
    {
        ConversationId { uuid: new_uuid_v7() }
    }

    /// The identifier with the given UUID bits.
    pub fn from_u128(value: u128) -> (id: Self)
        ensures
            id@ == value,
    {
        ConversationId { uuid: value }
    }

    /// The identifier's UUID bits.
    pub fn as_u128(&self) -> (value: u128)
        ensures
            value == self@,
    {
        self.uuid
    }

    /// The key a conversation is stored under: the simple form of its UUID.
    pub fn storage_key(self) -> (key: String)
        ensures
            key@ == simple_text(self@),
    {
        uuid_simple_text(self.uuid)
    }

    /// The identifier as it is shown: `conversation_<32 hex digits>`.
    pub fn to_string(&self) -> (text: String)
        ensures
            text@ == self.text_spec(),
    {
        let mut text = String::from_str("conversation_");
        text.append(uuid_simple_text(self.uuid).as_str());
        text
    }

    /// The part of `text` that `from_str` reads as a UUID: the text after
    /// a leading `conversation_`, or the whole text where it has none.
    pub open spec fn uuid_part(text: Seq<char>) -> Seq<char> {
        if crate::text::has_prefix(text, "conversation_"@) {
            text.skip("conversation_"@.len() as int)
        } else {
            text
        }
    }

    /// Reads an identifier written with or without its `conversation_`
    /// prefix; the rest is read as a UUID.
    pub fn from_str(text: &str) -> (result: Result<Self, InvalidIdentifier>)
        ensures
            (match result {
                Ok(id) => uuid_text_value(Self::uuid_part(text@)) == Some(id@),
                Err(_) => uuid_text_value(Self::uuid_part(text@)) is None,
            }),
            Self::uuid_part(text@).len() == 32 && is_hex_text(Self::uuid_part(text@)) ==> (
            result matches Ok(id) && id@ as nat == hex_value(Self::uuid_part(text@))),
    {
        let uuid_text = match crate::text::strip_prefix(text, "conversation_") {
            Some(rest) => rest,
            None => text,
        };
        match parse_uuid(uuid_text) {
            Ok(value) => Ok(ConversationId { uuid: value }),
            Err(error) => Err(InvalidIdentifier(error)),
        }
    }

    /// Reading back the text an identifier is shown as gives the same
    /// identifier: `from_str` reads the simple form of its UUID, 32
    /// hexadecimal digits whose value is the UUID.
    pub proof fn lemma_shown_text_reads_back(self)
        ensures
            Self::uuid_part(self.text_spec()) == simple_text(self@),
            Self::uuid_part(self.text_spec()).len() == 32,
            is_hex_text(Self::uuid_part(self.text_spec())),
            hex_value(Self::uuid_part(self.text_spec())) == self@,
    {
        let t = self.text_spec();
        let p = "conversation_"@;
        assert(t.take(p.len() as int) =~= p);
        assert(t.skip(p.len() as int) =~= simple_text(self@));
        lemma_simple_text(self@);
    }

    /// Two identifiers with the same UUID are the same identifier.
    pub proof fn lemma_same_uuid(self, other: Self)
        requires
            self@ == other@,
        ensures
            self == other,
    {
    }
}

/// Identity of one event of a conversation.
#[derive(Clone, Copy, Debug, PartialEq, Eq, Hash, Structural)]
pub struct ConversationEventId {
    uuid: u128,
}

impl View for ConversationEventId {
    type V = u128;

    closed spec fn view(&self) -> u128 {
        self.uuid
    }
}

impl ConversationEventId {
    /// A fresh identifier (UUIDv7).
    pub fn new() -> (id: Self)
        ensures
            (id@ >> 76u128) & 0xfu128 == 7,
    {
        ConversationEventId { uuid: new_uuid_v7() }
    }

    /// The identifier with the given UUID bits.
    pub fn from_u128(value: u128) -> (id: Self)
        ensures
            id@ == value,
    {
        ConversationEventId { uuid: value }
    }

    /// The identifier's UUID bits.
    pub fn as_u128(&self) -> (value: u128)
        ensures
            value == self@,
    {
        self.uuid
    }

    /// The key an event is stored under: the simple form of its UUID.
    pub fn storage_key(self) -> (key: String)
        ensures
            key@ == simple_text(self@),
    {
        uuid_simple_text(self.uuid)
    }

    /// The identifier as it is shown: `conversation_event_<32 hex digits>`.
    pub fn to_string(&self) -> (text: String)
        ensures
            text@ == "conversation_event_"@ + simple_text(self@),
    {
        let mut text = String::from_str("conversation_event_");
        text.append(uuid_simple_text(self.uuid).as_str());
        text
    }
}

/// Identity of an agent run.
#[derive(Clone, Copy, Debug, PartialEq, Eq, Hash, Structural)]
pub struct AgentRunId {
    uuid: u128,
}

impl View for AgentRunId {
    type V = u128;

    closed spec fn view(&self) -> u128 {
        self.uuid
    }
}

impl AgentRunId {
    /// A fresh identifier (UUIDv7).
    pub fn new() -> (id: Self)
        ensures
            (id@ >> 76u128) & 0xfu128 == 7,
    {
        AgentRunId { uuid: new_uuid_v7() }
    }

    /// The identifier with the given UUID bits.
    pub fn from_u128(value: u128) -> (id: Self)
        ensures
            id@ == value,
    {
        AgentRunId { uuid: value }
    }

    /// The identifier's UUID bits.
    pub fn as_u128(&self) -> (value: u128)
        ensures
            value == self@,
    {
        self.uuid
    }

    /// The key a run is stored under: the simple form of its UUID.
    pub fn storage_key(self) -> (key: String)
        ensures
            key@ == simple_text(self@),
    {
        uuid_simple_text(self.uuid)
    }

    /// The identifier as it is shown: `agent_run_<32 hex digits>`.
    pub fn to_string(&self) -> (text: String)
        ensures
            text@ == "agent_run_"@ + simple_text(self@),
    {
        let mut text = String::from_str("agent_run_");
        text.append(uuid_simple_text(self.uuid).as_str());
        text
    }
}

/// Identity of one event of an agent run.
#[derive(Clone, Copy, Debug, PartialEq, Eq, Hash, Structural)]
pub struct AgentRunEventId {
    uuid: u128,
}

impl View for AgentRunEventId {
    type V = u128;

    closed spec fn view(&self) -> u128 {
        self.uuid
    }
}

impl AgentRunEventId {
    /// A fresh identifier (UUIDv7).
    pub fn new() -> (id: Self)
        ensures
            (id@ >> 76u128) & 0xfu128 == 7,
    {
        AgentRunEventId { uuid: new_uuid_v7() }
    }

    /// The identifier with the given UUID bits.
    pub fn from_u128(value: u128) -> (id: Self)
        ensures
            id@ == value,
    {
        AgentRunEventId { uuid: value }
    }

    /// The identifier's UUID bits.
    pub fn as_u128(&self) -> (value: u128)
        ensures
            value == self@,
    {
        self.uuid
    }

    /// The key a run event is stored under: the simple form of its UUID.
    pub fn storage_key(self) -> (key: String)
        ensures
            key@ == simple_text(self@),
    {
        uuid_simple_text(self.uuid)
    }

    /// The identifier as it is shown: `agent_run_event_<32 hex digits>`.
    pub fn to_string(&self) -> (text: String)
        ensures
            text@ == "agent_run_event_"@ + simple_text(self@),
    {
        let mut text = String::from_str("agent_run_event_");
        text.append(uuid_simple_text(self.uuid).as_str());
        text
    }
}

} // verus!
