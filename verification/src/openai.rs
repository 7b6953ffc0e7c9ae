//! The decisions of the OpenAI Responses driver: the semantic input it sends,
//! how it reads an HTTP error status, how it frames a server-sent event
//! stream, and how it aggregates the stream's deltas into model events.
//! Exposed reasoning becomes a detailed communication, a reasoning summary an
//! interesting one, and the final text an important assistant response.
use vstd::prelude::*;

use crate::conversation::event::{
    AssistantResponse, ConversationEvent, ConversationEventKind, ModelCommunication, ModelEvent,
    ModelEventImportance, ModelEventView, UserContent,
};
use crate::conversation::model::{ModelId, ModelSource, ProviderId};
use crate::conversation::Conversation;
use crate::json::{
    array_member, array_member_of, json_member, json_parsed, member, parse_json, string_member,
    string_member_of,
};
use crate::model_driver::{DriverErrorKind, ModelDriverError};
use crate::text::{
    has_prefix, is_blank, join, join_spec, same_text, strip_prefix, trim_line_end,
    trim_line_end_spec, trim_start, trim_start_spec,
};

verus! {

// ---------------------------------------------------------------------------
// Semantic input
// ---------------------------------------------------------------------------

/// Who speaks in one message of the provider input.
#[derive(Clone, Copy, Debug, PartialEq, Eq, Structural)]
pub enum InputRole {
    User,
    Assistant,
}

impl InputRole {
    /// The role's name in the provider input.
    pub fn as_str(self) -> (name: &'static str)
        ensures
            name@ == (match self {
                InputRole::User => "user"@,
                InputRole::Assistant => "assistant"@,
            }),
    {
        match self {
            InputRole::User => "user",
            InputRole::Assistant => "assistant",
        }
    }
}

/// One message of the provider input.
#[derive(Clone, Debug, PartialEq, Eq)]
pub struct InputMessage {
    pub role: InputRole,
    pub content: String,
}

/// The texts of a user event's content parts.
pub open spec fn content_texts(content: Seq<UserContent>) -> Seq<Seq<char>> {
    content.map_values(|part: UserContent| match part {
        UserContent::Text(text) => text@,
    })
}

/// The input message an event contributes, if any: a user event's texts
/// joined by line feeds; a final assistant response's message. Other model
/// communications and problems contribute nothing.
pub open spec fn input_message_of(event: ConversationEvent) -> Option<(InputRole, Seq<char>)> {
    match event.kind {
        ConversationEventKind::User { content } => Some(
            (InputRole::User, join_spec(content_texts(content@), "\n"@)),
        ),
        ConversationEventKind::Model { event: ModelEvent::AssistantResponse(response), .. } => Some(
            (InputRole::Assistant, response.message_spec()),
        ),
        _ => None,
    }
}

/// The provider input for `events`: their input messages, in order.
pub open spec fn semantic_input_spec(events: Seq<ConversationEvent>) -> Seq<(InputRole, Seq<char>)>
    decreases events.len(),
{
    if events.len() == 0 {
        Seq::empty()
    } else {
        let before = semantic_input_spec(events.drop_last());
        match input_message_of(events.last()) {
            Some(message) => before.push(message),
            None => before,
        }
    }
}

/// The view of a list of input messages.
pub open spec fn input_view(messages: Seq<InputMessage>) -> Seq<(InputRole, Seq<char>)> {
    messages.map_values(|message: InputMessage| (message.role, message.content@))
}

/// Translates the whole conversation into provider input, so that any
/// compatible driver can continue it without provider-side history.
pub fn semantic_input(conversation: &Conversation) -> (input: Vec<InputMessage>)
    ensures
        input_view(input@) == semantic_input_spec(conversation.events_spec()),
{
    let events = conversation.events();
    let mut input: Vec<InputMessage> = Vec::new();
    let mut index: usize = 0;
    while index < events.len()
        invariant
            events@ == conversation.events_spec(),
            index <= events@.len(),
            input_view(input@) == semantic_input_spec(events@.take(index as int)),
        decreases events.len() - index,
    {
        let event = &events[index];
        assert(events@.take(index + 1).drop_last() =~= events@.take(index as int));
        assert(events@.take(index + 1).last() == *event);
        match &event.kind {
            ConversationEventKind::User { content } => {
                let mut texts: Vec<String> = Vec::new();
                let mut part: usize = 0;
                while part < content.len()
                    invariant
                        part <= content@.len(),
                        texts@.len() == part,
                        texts@.map_values(|p: String| p@) == content_texts(content@).take(part as int),
                    decreases content.len() - part,
                {
                    let ghost before = texts@;
                    match &content[part] {
                        UserContent::Text(text) => {
                            texts.push(text.clone());
                            assert(content_texts(content@)[part as int] == text@);
                        },
                    }
                    assert(texts@.map_values(|p: String| p@) =~= content_texts(content@).take(part + 1));
                    part = part + 1;
                }
                assert(content_texts(content@).take(content@.len() as int) =~= content_texts(content@));
                let joined = join(&texts, "\n");
                let ghost before = input@;
                input.push(InputMessage { role: InputRole::User, content: joined });
                assert(input_view(input@) =~= input_view(before).push(
                    (InputRole::User, joined@),
                ));
            },
            ConversationEventKind::Model { event: ModelEvent::AssistantResponse(response), .. } => {
                let ghost before = input@;
                input.push(
                    InputMessage {
                        role: InputRole::Assistant,
                        content: response.message().to_owned(),
                    },
                );
                assert(input_view(input@) =~= input_view(before).push(
                    (InputRole::Assistant, response.message_spec()),
                ));
            },
            _ => {},
        }
        index = index + 1;
    }
    assert(events@.take(events@.len() as int) =~= events@);
    input
}

/// The body of a Responses request: the model, the whole conversation as
/// semantic input, and the reply streamed and stored by the provider.
#[derive(Clone, Debug, PartialEq, Eq)]
pub struct ResponsesRequest {
    pub model: String,
    pub input: Vec<InputMessage>,
    pub stream: bool,
    pub store: bool,
}

/// The request that asks `model` to continue `conversation`.
pub fn responses_request(model: &ModelId, conversation: &Conversation) -> (request: ResponsesRequest)
    ensures
        request.model@ == model@,
        input_view(request.input@) == semantic_input_spec(conversation.events_spec()),
        request.stream,
        request.store,
{
    ResponsesRequest {
        model: model.as_str().to_owned(),
        input: semantic_input(conversation),
        stream: true,
        store: true,
    }
}

/// `text` without trailing slashes.
pub open spec fn without_trailing_slashes(text: Seq<char>) -> Seq<char>
    decreases text.len(),
{
    if text.len() > 0 && text.last() == '/' {
        without_trailing_slashes(text.drop_last())
    } else {
        text
    }
}

/// The Responses endpoint under the API base URL `base_url`: the base
/// without trailing slashes, then `/responses`.
pub fn responses_url(base_url: &str) -> (url: String)
    ensures
        url@ == without_trailing_slashes(base_url@) + "/responses"@,
{
    let n = base_url.unicode_len();
    let mut end: usize = n;
    assert(base_url@.take(n as int) =~= base_url@);
    while end > 0 && base_url.get_char(end - 1) == '/'
        invariant
            n == base_url@.len(),
            end <= n,
            without_trailing_slashes(base_url@) == without_trailing_slashes(base_url@.take(end as int)),
        decreases end,
    {
        assert(base_url@.take(end as int).drop_last() =~= base_url@.take(end - 1));
        end = end - 1;
    }
    assert(base_url@.take(end as int) =~= base_url@.subrange(0, end as int));
    let mut url = base_url.substring_char(0, end).to_owned();
    url.append("/responses");
    url
}

// ---------------------------------------------------------------------------
// HTTP status
// ---------------------------------------------------------------------------

/// How `reqwest::StatusCode` shows the status `code`.
pub uninterp spec fn http_status_text(code: u16) -> Seq<char>;

/// Calls `reqwest::StatusCode::from_u16(code)` and shows the status with
/// `to_string()`: the code, a space and its canonical reason phrase (or
/// `<unknown status code>`). The reason phrases are left to the name
/// `http_status_text`; codes outside 100 to 999 are not accepted by
/// `from_u16` and are excluded.
#[verifier::external_body]
fn status_text(code: u16) -> (text: String)
    requires
        100 <= code <= 999,
    ensures
        text@ == http_status_text(code),
{
    reqwest::StatusCode::from_u16(code).map(|status| status.to_string()).unwrap_or_default()
}

/// The text of a provider error for an unexpected status.
pub open spec fn provider_status_message(code: u16, body: Seq<char>) -> Seq<char> {
    "OpenAI Responses returned "@ + http_status_text(code) + ": "@ + body
}

/// The driver error for a failed HTTP response with status `code` and
/// body `body`: 401 and 403 are authentication failures, 429 a rate limit,
/// 400, 404 and 422 invalid requests; any other status is a provider
/// failure whose message names the status.
pub open spec fn classify_response_error_spec(code: u16, body: Seq<char>) -> (DriverErrorKind, Seq<char>) {
    if code == 401 || code == 403 {
        (DriverErrorKind::Authentication, body)
    } else if code == 429 {
        (DriverErrorKind::RateLimited, body)
    } else if code == 400 || code == 404 || code == 422 {
        (DriverErrorKind::InvalidRequest, body)
    } else {
        (DriverErrorKind::Provider, provider_status_message(code, body))
    }
}

/// Classifies a failed HTTP response by its status code.
pub fn classify_response_error(status: u16, body: String) -> (error: ModelDriverError)
    requires
        100 <= status <= 999,
    ensures
        error@ == classify_response_error_spec(status, body@),
{
    if status == 401 || status == 403 {
        ModelDriverError::Authentication(body)
    } else if status == 429 {
        ModelDriverError::RateLimited(body)
    } else if status == 400 || status == 404 || status == 422 {
        ModelDriverError::InvalidRequest(body)
    } else {
        let mut message = String::from_str("OpenAI Responses returned ");
        message.append(status_text(status).as_str());
        message.append(": ");
        message.append(body.as_str());
        ModelDriverError::Provider(message)
    }
}

// ---------------------------------------------------------------------------
// Server-sent event framing
// ---------------------------------------------------------------------------

/// One dispatched server-sent event: its `event:` name, if one was given,
/// and its data lines joined by line feeds.
#[derive(Clone, Debug, PartialEq, Eq)]
pub struct SseFrame {
    pub event_name: Option<String>,
    pub data: String,
}

/// The view of a frame.
pub open spec fn frame_view(frame: SseFrame) -> (Option<Seq<char>>, Seq<char>) {
    (frame.event_name.deep_view(), frame.data@)
}

/// The event dispatched from pending data lines and event name: nothing
/// without data lines or for the `[DONE]` sentinel, else a frame.
pub open spec fn dispatched_frame(name: Option<Seq<char>>, data_lines: Seq<Seq<char>>) -> Option<
    (Option<Seq<char>>, Seq<char>),
> {
    if data_lines.len() == 0 {
        None
    } else if join_spec(data_lines, "\n"@) == "[DONE]"@ {
        None
    } else {
        Some((name, join_spec(data_lines, "\n"@)))
    }
}

/// Splits a stream of lines into server-sent events. A blank line (after
/// its line ending) dispatches the pending event; `event:` sets the event
/// name and `data:` adds a data line, each without leading white space;
/// other lines are ignored.
pub struct SseDecoder {
    event_name: Option<String>,
    data_lines: Vec<String>,
}

impl SseDecoder {
    /// The pending event name.
    pub closed spec fn pending_name(&self) -> Option<Seq<char>> {
        self.event_name.deep_view()
    }

    /// The pending data lines.
    pub closed spec fn pending_data(&self) -> Seq<Seq<char>> {
        self.data_lines@.map_values(|line: String| line@)
    }

    /// A decoder with nothing pending.
    pub fn new() -> (decoder: Self)
        ensures
            decoder.pending_name() is None,
            decoder.pending_data() == Seq::<Seq<char>>::empty(),
    {
        let decoder = SseDecoder { event_name: None, data_lines: Vec::new() };
        assert(decoder.pending_data() =~= Seq::<Seq<char>>::empty());
        decoder
    }

    /// Dispatches the pending event, clearing what is pending.
    fn dispatch(&mut self) -> (frame: Option<SseFrame>)
        ensures
            final(self).pending_name() is None,
            final(self).pending_data() == Seq::<Seq<char>>::empty(),
            (match frame {
                Some(f) => Some(frame_view(f)),
                None => None,
            }) == dispatched_frame(old(self).pending_name(), old(self).pending_data()),
    {
        if self.data_lines.len() == 0 {
            self.event_name = None;
            return None;
        }
        let data = join(&self.data_lines, "\n");
        self.data_lines = Vec::new();
        assert(self.pending_data() =~= Seq::<Seq<char>>::empty());
        let name = self.event_name.take();
        if same_text(data.as_str(), "[DONE]") {
            return None;
        }
        Some(SseFrame { event_name: name, data })
    }

    /// Reads one line of the stream, returning the event it completes.
    pub fn push_line(&mut self, line: &str) -> (frame: Option<SseFrame>)
        ensures
            ({
                let t = trim_line_end_spec(line@);
                let frame_spec = match frame {
                    Some(f) => Some(frame_view(f)),
                    None => None,
                };
                if t.len() == 0 {
                    &&& frame_spec == dispatched_frame(old(self).pending_name(), old(self).pending_data())
                    &&& final(self).pending_name() is None
                    &&& final(self).pending_data() == Seq::<Seq<char>>::empty()
                } else if has_prefix(t, "event:"@) {
                    &&& frame is None
                    &&& final(self).pending_name() == Some(trim_start_spec(t.skip(6)))
                    &&& final(self).pending_data() == old(self).pending_data()
                } else if has_prefix(t, "data:"@) {
                    &&& frame is None
                    &&& final(self).pending_name() == old(self).pending_name()
                    &&& final(self).pending_data() == old(self).pending_data().push(
                        trim_start_spec(t.skip(5)),
                    )
                } else {
                    &&& frame is None
                    &&& final(self).pending_name() == old(self).pending_name()
                    &&& final(self).pending_data() == old(self).pending_data()
                }
            }),
    {
        let normalized_line = trim_line_end(line);
        if normalized_line.is_empty() {
            return self.dispatch();
        }
        proof {
            reveal_strlit("event:");
            reveal_strlit("data:");
        }
        match strip_prefix(normalized_line, "event:") {
            Some(name) => {
                self.event_name = Some(trim_start(name).to_owned());
                return None;
            },
            None => {},
        }
        match strip_prefix(normalized_line, "data:") {
            Some(data) => {
                let ghost before = self.pending_data();
                self.data_lines.push(trim_start(data).to_owned());
                assert(self.pending_data() =~= before.push(trim_start_spec(normalized_line@.skip(5))));
                None
            },
            None => None,
        }
    }

    /// Ends the stream, dispatching what is pending.
    pub fn finish(&mut self) -> (frame: Option<SseFrame>)
        ensures
            final(self).pending_name() is None,
            final(self).pending_data() == Seq::<Seq<char>>::empty(),
            (match frame {
                Some(f) => Some(frame_view(f)),
                None => None,
            }) == dispatched_frame(old(self).pending_name(), old(self).pending_data()),
    {
        self.dispatch()
    }
}

// ---------------------------------------------------------------------------
// Stream payloads
// ---------------------------------------------------------------------------

/// One content part of an output item of a completed response: its `type`,
/// `text` and `refusal` where they are strings.
#[derive(Clone, Debug, PartialEq, Eq)]
pub struct ContentItem {
    pub kind: Option<String>,
    pub text: Option<String>,
    pub refusal: Option<String>,
}

/// One output item of a completed response: its `content`, where it is an
/// array.
#[derive(Clone, Debug, PartialEq, Eq)]
pub struct OutputItem {
    pub content: Option<Vec<ContentItem>>,
}

/// The parts of one stream event's JSON payload that the driver reads: the
/// string fields `type`, `delta`, `text` and `refusal`, the array
/// `response.output`, and the payload as JSON text.
#[derive(Clone, Debug, PartialEq, Eq)]
pub struct StreamPayload {
    pub kind: Option<String>,
    pub delta: Option<String>,
    pub text: Option<String>,
    pub refusal: Option<String>,
    pub response_output: Option<Vec<OutputItem>>,
    pub json: String,
}

/// The text a content part contributes to a completed response.
pub open spec fn content_piece(item: ContentItem) -> Seq<char> {
    match item.kind {
        Some(kind) => if kind@ == "output_text"@ {
            match item.text {
                Some(text) => text@,
                None => Seq::empty(),
            }
        } else if kind@ == "refusal"@ {
            match item.refusal {
                Some(refusal) => refusal@,
                None => Seq::empty(),
            }
        } else {
            Seq::empty()
        },
        None => Seq::empty(),
    }
}

/// The text the content parts `items` contribute, in order.
pub open spec fn content_text(items: Seq<ContentItem>) -> Seq<char>
    decreases items.len(),
{
    if items.len() == 0 {
        Seq::empty()
    } else {
        content_text(items.drop_last()) + content_piece(items.last())
    }
}

/// The text the output items `items` contribute, in order.
pub open spec fn output_text(items: Seq<OutputItem>) -> Seq<char>
    decreases items.len(),
{
    if items.len() == 0 {
        Seq::empty()
    } else {
        output_text(items.drop_last()) + match items.last().content {
            Some(content) => content_text(content@),
            None => Seq::empty(),
        }
    }
}

/// The message text of a completed response: the output texts and
/// refusals of its output items, in order; nothing if there is no output
/// array or the text is empty.
pub open spec fn completed_response_text_spec(output: Option<Vec<OutputItem>>) -> Option<Seq<char>> {
    match output {
        Some(items) => if output_text(items@).len() == 0 {
            None
        } else {
            Some(output_text(items@))
        },
        None => None,
    }
}

/// Reads the message text of a completed response from its output items.
pub fn completed_response_text(output: &Option<Vec<OutputItem>>) -> (text: Option<String>)
    ensures
        text.deep_view() == completed_response_text_spec(*output),
{
    let items = match output {
        Some(items) => items,
        None => return None,
    };
    let mut text = String::new();
    let mut index: usize = 0;
    while index < items.len()
        invariant
            index <= items@.len(),
            text@ == output_text(items@.take(index as int)),
        decreases items.len() - index,
    {
        assert(items@.take(index + 1).drop_last() =~= items@.take(index as int));
        match &items[index].content {
            Some(content) => {
                let ghost before = text@;
                let mut part: usize = 0;
                while part < content.len()
                    invariant
                        part <= content@.len(),
                        text@ == before + content_text(content@.take(part as int)),
                    decreases content.len() - part,
                {
                    assert(content@.take(part + 1).drop_last() =~= content@.take(part as int));
                    let item = &content[part];
                    let piece: &str = match &item.kind {
                        Some(kind) => if same_text(kind.as_str(), "output_text") {
                            match &item.text {
                                Some(t) => t.as_str(),
                                None => "",
                            }
                        } else if same_text(kind.as_str(), "refusal") {
                            match &item.refusal {
                                Some(r) => r.as_str(),
                                None => "",
                            }
                        } else {
                            ""
                        },
                        None => "",
                    };
                    proof {
                        reveal_strlit("");
                    }
                    assert(piece@ == content_piece(*item));
                    text.append(piece);
                    assert(text@ =~= before + content_text(content@.take(part + 1)));
                    part = part + 1;
                }
                assert(content@.take(content@.len() as int) =~= content@);
                assert(text@ =~= output_text(items@.take(index + 1)));
            },
            None => {
                assert(text@ =~= output_text(items@.take(index + 1)));
            },
        }
        index = index + 1;
    }
    assert(items@.take(items@.len() as int) =~= items@);
    if text.as_str().is_empty() {
        None
    } else {
        Some(text)
    }
}

// ---------------------------------------------------------------------------
// Payload decoding
// ---------------------------------------------------------------------------

/// What a content part reads from its JSON text: its string members
/// `type`, `text` and `refusal`.
pub open spec fn content_item_decodes(text: Seq<char>, item: ContentItem) -> bool {
    &&& item.kind.deep_view() == string_member(text, "type"@)
    &&& item.text.deep_view() == string_member(text, "text"@)
    &&& item.refusal.deep_view() == string_member(text, "refusal"@)
}

/// What an output item reads from its JSON text: its array member
/// `content`, each part decoded in order.
pub open spec fn output_item_decodes(text: Seq<char>, item: OutputItem) -> bool {
    match array_member(text, "content"@) {
        None => item.content is None,
        Some(parts) => item.content matches Some(content) && content@.len() == parts.len()
            && forall|i: int|
            0 <= i < parts.len() ==> content_item_decodes(parts[i], #[trigger] content@[i]),
    }
}

/// The elements of `response.output` in a payload document, where it is an
/// array.
pub open spec fn response_output_of(document: Seq<char>) -> Option<Seq<Seq<char>>> {
    match json_member(document, "response"@) {
        Some(response) => array_member(response, "output"@),
        None => None,
    }
}

/// What the data of one stream event decodes to: the message of the JSON
/// error where it is no JSON, else the payload's string members `type`,
/// `delta`, `text` and `refusal`, its `response.output` items, and its
/// compact JSON text.
pub open spec fn payload_decodes(data: Seq<char>, payload: Result<StreamPayload, String>) -> bool {
    match json_parsed(data) {
        Err(message) => payload matches Err(m) && m@ == message,
        Ok(document) => payload matches Ok(p) && {
            &&& p.kind.deep_view() == string_member(document, "type"@)
            &&& p.delta.deep_view() == string_member(document, "delta"@)
            &&& p.text.deep_view() == string_member(document, "text"@)
            &&& p.refusal.deep_view() == string_member(document, "refusal"@)
            &&& p.json@ == document
            &&& match response_output_of(document) {
                None => p.response_output is None,
                Some(items) => p.response_output matches Some(output) && output@.len()
                    == items.len() && forall|i: int|
                    0 <= i < items.len() ==> output_item_decodes(items[i], #[trigger] output@[i]),
            }
        },
    }
}

/// Decodes one content part from its JSON text.
fn decode_content_item(text: &str) -> (item: ContentItem)
    ensures
        content_item_decodes(text@, item),
{
    ContentItem {
        kind: string_member_of(text, "type"),
        text: string_member_of(text, "text"),
        refusal: string_member_of(text, "refusal"),
    }
}

/// Decodes one output item from its JSON text.
fn decode_output_item(text: &str) -> (item: OutputItem)
    ensures
        output_item_decodes(text@, item),
{
    let content = match array_member_of(text, "content") {
        None => None,
        Some(parts) => {
            let mut items: Vec<ContentItem> = Vec::new();
            let mut index: usize = 0;
            while index < parts.len()
                invariant
                    index <= parts@.len(),
                    items@.len() == index,
                    forall|j: int|
                        0 <= j < index ==> content_item_decodes(parts@[j]@, #[trigger] items@[j]),
                decreases parts.len() - index,
            {
                items.push(decode_content_item(parts[index].as_str()));
                index = index + 1;
            }
            Some(items)
        },
    };
    OutputItem { content }
}

/// Decodes the output items of a completed response from their JSON texts.
fn decode_output_items(texts: &Vec<String>) -> (items: Vec<OutputItem>)
    ensures
        items@.len() == texts@.len(),
        forall|i: int| 0 <= i < texts@.len() ==> output_item_decodes(texts@[i]@, #[trigger] items@[i]),
{
    let mut items: Vec<OutputItem> = Vec::new();
    let mut index: usize = 0;
    while index < texts.len()
        invariant
            index <= texts@.len(),
            items@.len() == index,
            forall|j: int| 0 <= j < index ==> output_item_decodes(texts@[j]@, #[trigger] items@[j]),
        decreases texts.len() - index,
    {
        items.push(decode_output_item(texts[index].as_str()));
        index = index + 1;
    }
    items
}

/// Decodes the data of one stream event into the parts of its JSON payload
/// that the driver reads, or the message of the JSON error.
pub fn decode_stream_payload(data: &str) -> (payload: Result<StreamPayload, String>)
    ensures
        payload_decodes(data@, payload),
{
    let document = match parse_json(data) {
        Ok(document) => document,
        Err(message) => return Err(message),
    };
    let d = document.as_str();
    let response_output = match member(d, "response") {
        None => None,
        Some(response) => match array_member_of(response.as_str(), "output") {
            None => None,
            Some(texts) => Some(decode_output_items(&texts)),
        },
    };
    let payload = StreamPayload {
        kind: string_member_of(d, "type"),
        delta: string_member_of(d, "delta"),
        text: string_member_of(d, "text"),
        refusal: string_member_of(d, "refusal"),
        response_output,
        json: document,
    };
    Ok(payload)
}

// ---------------------------------------------------------------------------
// Response aggregation
// ---------------------------------------------------------------------------

/// What the driver has gathered from a response stream so far.
pub struct ResponseStateView {
    pub assistant_text: Seq<char>,
    pub completed_assistant_text: Option<Seq<char>>,
    pub reasoning_text: Seq<char>,
    pub completed_reasoning_text: Option<Seq<char>>,
    pub reasoning_summary: Seq<char>,
    pub completed_reasoning_summary: Option<Seq<char>>,
    pub events: Seq<ModelEventView>,
    pub completed: bool,
}

/// The state of a stream that has just begun.
pub open spec fn initial_response_state() -> ResponseStateView {
    ResponseStateView {
        assistant_text: Seq::empty(),
        completed_assistant_text: None,
        reasoning_text: Seq::empty(),
        completed_reasoning_text: None,
        reasoning_summary: Seq::empty(),
        completed_reasoning_summary: None,
        events: Seq::empty(),
        completed: false,
    }
}

/// The rank of a model event's importance (a final response is important).
pub open spec fn event_rank(event: ModelEventView) -> nat {
    match event {
        ModelEventView::Response(_) => ModelEventImportance::Important.rank(),
        ModelEventView::Communication { importance, .. } => importance.rank(),
    }
}

/// The events of a completed response: communications of strictly rising
/// importance, then exactly one final response.
pub open spec fn completed_events_shape(events: Seq<ModelEventView>) -> bool {
    &&& events.len() >= 1
    &&& events.last() is Response
    &&& forall|i: int| 0 <= i < events.len() - 1 ==> #[trigger] events[i] is Communication
    &&& forall|i: int, j: int|
        0 <= i < j < events.len() ==> event_rank(#[trigger] events[i]) < event_rank(
            #[trigger] events[j],
        )
}

/// What holds of the state throughout a stream: no model event exists
/// before the response is completed, and a completed response's events
/// have the completed shape.
pub open spec fn stream_consistent(state: ResponseStateView) -> bool {
    &&& !state.completed ==> state.events.len() == 0
    &&& state.completed ==> completed_events_shape(state.events)
}

/// The stream's state stays consistent: it holds at the start, every
/// stream event keeps it, and after completion the model events never
/// change. Exposed reasoning thus comes out as a detailed event, a
/// reasoning summary as an interesting one, the answer last as the one
/// important event, and nothing is added after the response completed.
pub proof fn lemma_stream_stays_consistent(
    state: ResponseStateView,
    name: Option<Seq<char>>,
    payload: Result<StreamPayload, String>,
)
    requires
        stream_consistent(state),
    ensures
        stream_consistent(initial_response_state()),
        apply_event_spec(state, name, payload) matches Ok(next) ==> stream_consistent(next),
        state.completed ==> (apply_event_spec(state, name, payload) matches Ok(next)
            ==> next.events == state.events && next.completed),
{
    match payload {
        Ok(p) => {
            if !state.completed && event_type_spec(name, p) == "response.completed"@ {
                match complete_response_spec(state, p) {
                    Ok(next) => {
                        let events = next.events;
                        assert forall|i: int, j: int|
                            0 <= i < j < events.len() implies event_rank(#[trigger] events[i])
                            < event_rank(#[trigger] events[j]) by {
                        }
                    },
                    Err(_) => {},
                }
            }
        },
        Err(_) => {},
    }
}

/// The streamed text if any was streamed, else the text of the `.done`
/// event, if one came.
pub open spec fn preferred_text_spec(streamed: Seq<char>, completed: Option<Seq<char>>) -> Option<
    Seq<char>,
> {
    if streamed.len() == 0 {
        completed
    } else {
        Some(streamed)
    }
}

/// `text` with `delta` appended, if there is one.
pub open spec fn with_delta(text: Seq<char>, delta: Option<Seq<char>>) -> Seq<char> {
    match delta {
        Some(d) => text + d,
        None => text,
    }
}

/// The type of a stream event: the payload's `type`, else the `event:`
/// name, else `unknown`.
pub open spec fn event_type_spec(name: Option<Seq<char>>, payload: StreamPayload) -> Seq<char> {
    match payload.kind {
        Some(kind) => kind@,
        None => match name {
            Some(n) => n,
            None => "unknown"@,
        },
    }
}

/// An error of the `InvalidResponse` kind.
pub open spec fn invalid_response(message: Seq<char>) -> (DriverErrorKind, Seq<char>) {
    (DriverErrorKind::InvalidResponse, message)
}

/// Adds the communication for an aggregated text, if there is one.
pub open spec fn with_communication(
    events: Seq<ModelEventView>,
    text: Option<Seq<char>>,
    importance: ModelEventImportance,
    subtype: Seq<char>,
) -> Result<Seq<ModelEventView>, (DriverErrorKind, Seq<char>)> {
    match text {
        None => Ok(events),
        Some(message) => if is_blank(message) {
            Err(invalid_response("model communication message must not be empty"@))
        } else {
            Ok(events.push(ModelEventView::Communication { message, importance, subtype }))
        },
    }
}

/// What `response.completed` makes of the state: the aggregated reasoning
/// (detailed), reasoning summary (interesting) and final response
/// (important), in that order. A second completion, a response without a
/// message, and blank messages are invalid responses.
pub open spec fn complete_response_spec(state: ResponseStateView, payload: StreamPayload) -> Result<
    ResponseStateView,
    (DriverErrorKind, Seq<char>),
> {
    if state.completed {
        Err(invalid_response("response.completed was received more than once"@))
    } else {
        match with_communication(
            state.events,
            preferred_text_spec(state.reasoning_text, state.completed_reasoning_text),
            ModelEventImportance::Detailed,
            "reasoning"@,
        ) {
            Err(error) => Err(error),
            Ok(events) => match with_communication(
                events,
                preferred_text_spec(state.reasoning_summary, state.completed_reasoning_summary),
                ModelEventImportance::Interesting,
                "reasoning_summary"@,
            ) {
                Err(error) => Err(error),
                Ok(events) => {
                    let answer = match preferred_text_spec(
                        state.assistant_text,
                        state.completed_assistant_text,
                    ) {
                        Some(text) => Some(text),
                        None => completed_response_text_spec(payload.response_output),
                    };
                    match answer {
                        None => Err(
                            invalid_response("the completed response contained no model message"@),
                        ),
                        Some(message) => if is_blank(message) {
                            Err(invalid_response("assistant response message must not be empty"@))
                        } else {
                            Ok(
                                ResponseStateView {
                                    events: events.push(ModelEventView::Response(message)),
                                    completed: true,
                                    ..state
                                },
                            )
                        },
                    }
                },
            },
        }
    }
}

/// What one stream event does to the state.
pub open spec fn apply_event_spec(
    state: ResponseStateView,
    name: Option<Seq<char>>,
    payload: Result<StreamPayload, String>,
) -> Result<ResponseStateView, (DriverErrorKind, Seq<char>)> {
    match payload {
        Err(message) => Err(invalid_response(message@)),
        Ok(payload) => {
            let event_type = event_type_spec(name, payload);
            if event_type == "response.output_text.delta"@ || event_type
                == "response.refusal.delta"@ {
                Ok(
                    ResponseStateView {
                        assistant_text: with_delta(state.assistant_text, payload.delta.deep_view()),
                        ..state
                    },
                )
            } else if event_type == "response.output_text.done"@ {
                Ok(
                    ResponseStateView {
                        completed_assistant_text: payload.text.deep_view(),
                        ..state
                    },
                )
            } else if event_type == "response.refusal.done"@ {
                Ok(
                    ResponseStateView {
                        completed_assistant_text: payload.refusal.deep_view(),
                        ..state
                    },
                )
            } else if event_type == "response.reasoning_text.delta"@ {
                Ok(
                    ResponseStateView {
                        reasoning_text: with_delta(state.reasoning_text, payload.delta.deep_view()),
                        ..state
                    },
                )
            } else if event_type == "response.reasoning_text.done"@ {
                Ok(
                    ResponseStateView {
                        completed_reasoning_text: payload.text.deep_view(),
                        ..state
                    },
                )
            } else if event_type == "response.reasoning_summary_text.delta"@ {
                Ok(
                    ResponseStateView {
                        reasoning_summary: with_delta(state.reasoning_summary, payload.delta.deep_view()),
                        ..state
                    },
                )
            } else if event_type == "response.reasoning_summary_text.done"@ {
                Ok(
                    ResponseStateView {
                        completed_reasoning_summary: payload.text.deep_view(),
                        ..state
                    },
                )
            } else if event_type == "response.completed"@ {
                complete_response_spec(state, payload)
            } else if event_type == "error"@ || event_type == "response.failed"@ {
                Err(
                    (
                        DriverErrorKind::Provider,
                        "OpenAI stream emitted "@ + event_type + ": "@ + payload.json@,
                    ),
                )
            } else {
                Ok(state)
            }
        },
    }
}

/// Text events only gather text: an `output_text.delta` appends its delta
/// to the streamed answer, and an `output_text.done` only records its text
/// beside the streamed answer, which it never changes. Neither adds a
/// model event or completes the response.
pub proof fn lemma_answer_text_events(
    state: ResponseStateView,
    name: Option<Seq<char>>,
    payload: StreamPayload,
)
    ensures
        payload.kind.deep_view() == Some("response.output_text.delta"@) ==> (apply_event_spec(
            state,
            name,
            Ok(payload),
        ) matches Ok(next) && next.events == state.events && next.completed == state.completed
            && next.completed_assistant_text == state.completed_assistant_text && (match payload.delta.deep_view() {
            Some(delta) => next.assistant_text == state.assistant_text + delta,
            None => next.assistant_text == state.assistant_text,
        })),
        payload.kind.deep_view() == Some("response.output_text.done"@) ==> (apply_event_spec(
            state,
            name,
            Ok(payload),
        ) matches Ok(next) && next.events == state.events && next.completed == state.completed
            && next.assistant_text == state.assistant_text && next.completed_assistant_text
            == payload.text.deep_view()),
{
    reveal_strlit("response.output_text.delta");
    reveal_strlit("response.output_text.done");
    reveal_strlit("response.refusal.delta");
    assert("response.output_text.delta"@ != "response.output_text.done"@) by {
        assert("response.output_text.delta"@[22] != "response.output_text.done"@[22]);
    }
    assert("response.output_text.done"@ != "response.refusal.delta"@) by {
        assert("response.output_text.done"@[9] != "response.refusal.delta"@[9]);
    }
}

/// What a completion makes of the gathered texts. The answer is the
/// streamed text whenever any was streamed, whatever `.done` events came;
/// the `.done` text counts only when nothing was streamed. Streamed
/// reasoning becomes a detailed `reasoning` communication and a streamed
/// reasoning summary an interesting `reasoning_summary` communication,
/// whether or not the other was streamed. Every event the completion adds
/// is one of these, and the answer comes last.
pub proof fn lemma_completion_keeps_gathered_texts(state: ResponseStateView, payload: StreamPayload)
    ensures
        complete_response_spec(state, payload) matches Ok(next) ==> {
            &&& next.completed
            &&& !state.completed
            &&& next.events.len() > state.events.len()
            &&& next.events.take(state.events.len() as int) == state.events
            &&& state.assistant_text.len() > 0 ==> next.events.last() == ModelEventView::Response(
                state.assistant_text,
            )
            &&& state.assistant_text.len() == 0 ==> (state.completed_assistant_text matches Some(
                text,
            ) ==> next.events.last() == ModelEventView::Response(text))
            &&& state.reasoning_text.len() > 0 ==> next.events.contains(
                ModelEventView::Communication {
                    message: state.reasoning_text,
                    importance: ModelEventImportance::Detailed,
                    subtype: "reasoning"@,
                },
            )
            &&& state.reasoning_summary.len() > 0 ==> next.events.contains(
                ModelEventView::Communication {
                    message: state.reasoning_summary,
                    importance: ModelEventImportance::Interesting,
                    subtype: "reasoning_summary"@,
                },
            )
            &&& forall|i: int|
                state.events.len() <= i < next.events.len() - 1 ==> (#[trigger] next.events[i]
                    matches ModelEventView::Communication { importance, subtype, .. } && ((
                importance == ModelEventImportance::Detailed && subtype == "reasoning"@) || (
                importance == ModelEventImportance::Interesting && subtype
                    == "reasoning_summary"@)))
            &&& next.events.last() is Response
        },
{
    match complete_response_spec(state, payload) {
        Ok(next) => {
            let n = state.events.len();
            let first = with_communication(
                state.events,
                preferred_text_spec(state.reasoning_text, state.completed_reasoning_text),
                ModelEventImportance::Detailed,
                "reasoning"@,
            );
            let after_reasoning = first->Ok_0;
            let second = with_communication(
                after_reasoning,
                preferred_text_spec(state.reasoning_summary, state.completed_reasoning_summary),
                ModelEventImportance::Interesting,
                "reasoning_summary"@,
            );
            let after_summary = second->Ok_0;
            assert(next.events == after_summary.push(next.events.last()));
            assert(next.events.take(n as int) =~= state.events);
            if state.reasoning_text.len() > 0 {
                assert(after_reasoning[n as int] == ModelEventView::Communication {
                    message: state.reasoning_text,
                    importance: ModelEventImportance::Detailed,
                    subtype: "reasoning"@,
                });
                assert(next.events[n as int] == after_reasoning[n as int]);
            }
            if state.reasoning_summary.len() > 0 {
                let k = after_summary.len() - 1;
                assert(next.events[k] == after_summary[k]);
            }
        },
        Err(_) => {},
    }
}

/// Only user input and final answers are replayed to the provider: adding
/// a user event adds its texts as one user message, adding a final answer
/// adds it as one assistant message, and adding a model communication or
/// a problem adds nothing.
pub proof fn lemma_semantic_input_grows_by_speech(
    events: Seq<ConversationEvent>,
    event: ConversationEvent,
)
    ensures
        event.kind matches ConversationEventKind::User { content } ==> semantic_input_spec(
            events.push(event),
        ) == semantic_input_spec(events).push(
            (InputRole::User, join_spec(content_texts(content@), "\n"@)),
        ),
        event.kind matches ConversationEventKind::Model {
            event: ModelEvent::AssistantResponse(response),
            ..
        } ==> semantic_input_spec(events.push(event)) == semantic_input_spec(events).push(
            (InputRole::Assistant, response.message_spec()),
        ),
        event.kind matches ConversationEventKind::Model { event: ModelEvent::Communication(_), .. }
            ==> semantic_input_spec(events.push(event)) == semantic_input_spec(events),
        event.kind is Problem ==> semantic_input_spec(events.push(event)) == semantic_input_spec(
            events,
        ),
        semantic_input_spec(events.push(event)).len() <= semantic_input_spec(events).len() + 1,
{
    assert(events.push(event).drop_last() =~= events);
}

/// Which failures are the caller's: statuses 400, 404 and 422 are invalid
/// requests, 401 and 403 authentication failures and 429 a rate limit,
/// each carrying the response body unchanged; every other status is a
/// provider failure whose message ends with the body.
pub proof fn lemma_status_classes(code: u16, body: Seq<char>)
    ensures
        code == 400 || code == 404 || code == 422 ==> classify_response_error_spec(code, body) == (
        DriverErrorKind::InvalidRequest, body),
        code == 401 || code == 403 ==> classify_response_error_spec(code, body) == (
        DriverErrorKind::Authentication, body),
        code == 429 ==> classify_response_error_spec(code, body) == (
        DriverErrorKind::RateLimited, body),
        !(code == 400 || code == 404 || code == 422 || code == 401 || code == 403 || code == 429)
            ==> ({
            let (kind, message) = classify_response_error_spec(code, body);
            kind == DriverErrorKind::Provider && message.len() >= body.len() && message.skip(
                message.len() - body.len(),
            ) == body
        }),
{
    let message = provider_status_message(code, body);
    let head = "OpenAI Responses returned "@ + http_status_text(code) + ": "@;
    assert(message =~= head + body);
    assert(message.skip(message.len() - body.len()) =~= body);
}

/// The streamed text if any was streamed, else the text of the `.done`
/// event.
pub fn preferred_text(streamed_text: &str, completed_text: &Option<String>) -> (text: Option<
    String,
>)
    ensures
        text.deep_view() == preferred_text_spec(streamed_text@, completed_text.deep_view()),
{
    if streamed_text.is_empty() {
        match completed_text {
            Some(t) => Some(t.clone()),
            None => None,
        }
    } else {
        Some(streamed_text.to_owned())
    }
}

/// Appends the payload's `delta`, if it has one, to `text`.
fn append_delta(payload: &StreamPayload, text: &mut String)
    ensures
        final(text)@ == with_delta(old(text)@, payload.delta.deep_view()),
{
    match &payload.delta {
        Some(delta) => text.append(delta.as_str()),
        None => {},
    }
}

/// A copy of an optional text field.
fn text_field(field: &Option<String>) -> (text: Option<String>)
    ensures
        text.deep_view() == field.deep_view(),
{
    match field {
        Some(t) => Some(t.clone()),
        None => None,
    }
}

/// The view of a list of model events.
pub open spec fn events_view(events: Seq<ModelEvent>) -> Seq<ModelEventView> {
    events.map_values(|event: ModelEvent| event@)
}

/// The model events gathered from one response stream.
pub struct ResponseState {
    assistant_text: String,
    completed_assistant_text: Option<String>,
    reasoning_text: String,
    completed_reasoning_text: Option<String>,
    reasoning_summary: String,
    completed_reasoning_summary: Option<String>,
    events: Vec<ModelEvent>,
    completed: bool,
}

impl View for ResponseState {
    type V = ResponseStateView;

    closed spec fn view(&self) -> ResponseStateView {
        ResponseStateView {
            assistant_text: self.assistant_text@,
            completed_assistant_text: self.completed_assistant_text.deep_view(),
            reasoning_text: self.reasoning_text@,
            completed_reasoning_text: self.completed_reasoning_text.deep_view(),
            reasoning_summary: self.reasoning_summary@,
            completed_reasoning_summary: self.completed_reasoning_summary.deep_view(),
            events: events_view(self.events@),
            completed: self.completed,
        }
    }
}

impl ResponseState {
    /// The state of a stream that has just begun.
    pub fn new() -> (state: Self)
        ensures
            state@ == initial_response_state(),
    {
        let state = ResponseState {
            assistant_text: String::new(),
            completed_assistant_text: None,
            reasoning_text: String::new(),
            completed_reasoning_text: None,
            reasoning_summary: String::new(),
            completed_reasoning_summary: None,
            events: Vec::new(),
            completed: false,
        };
        assert(events_view(state.events@) =~= Seq::<ModelEventView>::empty());
        state
    }

    /// The communication for an aggregated text, if there is one: nothing
    /// for no text, an invalid response for a blank one.
    fn communication_event(
        text: Option<String>,
        importance: ModelEventImportance,
        subtype: &str,
    ) -> (result: Result<Option<ModelEvent>, ModelDriverError>)
        requires
            !is_blank(subtype@),
        ensures
            (match text.deep_view() {
                None => result matches Ok(None),
                Some(message) => if is_blank(message) {
                    result matches Err(e) && e@ == invalid_response(
                        "model communication message must not be empty"@,
                    )
                } else {
                    result matches Ok(Some(event)) && event@ == (ModelEventView::Communication {
                        message,
                        importance,
                        subtype: subtype@,
                    })
                },
            }),
    {
        match text {
            None => Ok(None),
            Some(message) => match ModelCommunication::new(message, importance, subtype.to_owned()) {
                Ok(communication) => Ok(Some(ModelEvent::Communication(communication))),
                Err(error) => Err(ModelDriverError::InvalidResponse(error.to_string())),
            },
        }
    }

    /// Handles `response.completed`. Nothing changes unless it succeeds.
    fn complete_response(&mut self, payload: &StreamPayload) -> (result: Result<(), ModelDriverError>)
        ensures
            (match complete_response_spec(old(self)@, *payload) {
                Ok(state) => result is Ok && final(self)@ == state,
                Err(error) => result matches Err(e) && e@ == error && final(self)@ == old(self)@,
            }),
    {
        if self.completed {
            return Err(
                ModelDriverError::InvalidResponse(
                    String::from_str("response.completed was received more than once"),
                ),
            );
        }
        proof {
            reveal_strlit("reasoning");
            reveal_strlit("reasoning_summary");
            assert(!crate::text::unicode_white_space("reasoning"@[0]));
            assert(!crate::text::unicode_white_space("reasoning_summary"@[0]));
        }
        let reasoning = preferred_text(self.reasoning_text.as_str(), &self.completed_reasoning_text);
        let reasoning_event = Self::communication_event(
            reasoning,
            ModelEventImportance::Detailed,
            "reasoning",
        )?;
        let summary = preferred_text(
            self.reasoning_summary.as_str(),
            &self.completed_reasoning_summary,
        );
        let summary_event = Self::communication_event(
            summary,
            ModelEventImportance::Interesting,
            "reasoning_summary",
        )?;
        let answer = match preferred_text(
            self.assistant_text.as_str(),
            &self.completed_assistant_text,
        ) {
            Some(text) => Some(text),
            None => completed_response_text(&payload.response_output),
        };
        let message = match answer {
            Some(message) => message,
            None => {
                return Err(
                    ModelDriverError::InvalidResponse(
                        String::from_str("the completed response contained no model message"),
                    ),
                );
            },
        };
        let response = match AssistantResponse::new(message) {
            Ok(response) => response,
            Err(error) => return Err(ModelDriverError::InvalidResponse(error.to_string())),
        };
        let ghost start = events_view(self.events@);
        match reasoning_event {
            Some(event) => {
                let ghost before = self.events@;
                self.events.push(event);
                assert(events_view(self.events@) =~= events_view(before).push(event@));
            },
            None => {},
        }
        let ghost after_reasoning = events_view(self.events@);
        assert(with_communication(
            start,
            preferred_text_spec(old(self)@.reasoning_text, old(self)@.completed_reasoning_text),
            ModelEventImportance::Detailed,
            "reasoning"@,
        ) == Ok::<Seq<ModelEventView>, (DriverErrorKind, Seq<char>)>(after_reasoning));
        match summary_event {
            Some(event) => {
                let ghost before = self.events@;
                self.events.push(event);
                assert(events_view(self.events@) =~= events_view(before).push(event@));
            },
            None => {},
        }
        let ghost after_summary = events_view(self.events@);
        assert(with_communication(
            after_reasoning,
            preferred_text_spec(old(self)@.reasoning_summary, old(self)@.completed_reasoning_summary),
            ModelEventImportance::Interesting,
            "reasoning_summary"@,
        ) == Ok::<Seq<ModelEventView>, (DriverErrorKind, Seq<char>)>(after_summary));
        let ghost before = self.events@;
        self.events.push(ModelEvent::AssistantResponse(response));
        assert(events_view(self.events@) =~= events_view(before).push(
            ModelEventView::Response(response.message_spec()),
        ));
        self.completed = true;
        Ok(())
    }

    /// Handles one stream event: its `event:` name and its payload, or the
    /// reason its data is not a JSON payload.
    pub fn apply_event(
        &mut self,
        event_name: Option<String>,
        payload: Result<StreamPayload, String>,
    ) -> (result: Result<(), ModelDriverError>)
        ensures
            (match apply_event_spec(old(self)@, event_name.deep_view(), payload) {
                Ok(state) => result is Ok && final(self)@ == state,
                Err(error) => result matches Err(e) && e@ == error && final(self)@ == old(self)@,
            }),
    {
        let payload = match payload {
            Ok(payload) => payload,
            Err(message) => return Err(ModelDriverError::InvalidResponse(message)),
        };
        let event_type: String = match &payload.kind {
            Some(kind) => kind.clone(),
            None => match event_name {
                Some(name) => name,
                None => String::from_str("unknown"),
            },
        };
        let t = event_type.as_str();
        if same_text(t, "response.output_text.delta") || same_text(t, "response.refusal.delta") {
            append_delta(&payload, &mut self.assistant_text);
        } else if same_text(t, "response.output_text.done") {
            self.completed_assistant_text = text_field(&payload.text);
        } else if same_text(t, "response.refusal.done") {
            self.completed_assistant_text = text_field(&payload.refusal);
        } else if same_text(t, "response.reasoning_text.delta") {
            append_delta(&payload, &mut self.reasoning_text);
        } else if same_text(t, "response.reasoning_text.done") {
            self.completed_reasoning_text = text_field(&payload.text);
        } else if same_text(t, "response.reasoning_summary_text.delta") {
            append_delta(&payload, &mut self.reasoning_summary);
        } else if same_text(t, "response.reasoning_summary_text.done") {
            self.completed_reasoning_summary = text_field(&payload.text);
        } else if same_text(t, "response.completed") {
            return self.complete_response(&payload);
        } else if same_text(t, "error") || same_text(t, "response.failed") {
            let mut message = String::from_str("OpenAI stream emitted ");
            message.append(t);
            message.append(": ");
            message.append(payload.json.as_str());
            return Err(ModelDriverError::Provider(message));
        }
        Ok(())
    }

    /// Handles one dispatched server-sent event: decodes its data and
    /// applies it under its `event:` name.
    pub fn process_frame(&mut self, frame: SseFrame) -> (result: Result<(), ModelDriverError>)
        ensures
            exists|payload: Result<StreamPayload, String>|
                #[trigger] payload_decodes(frame.data@, payload) && (match apply_event_spec(
                    old(self)@,
                    frame.event_name.deep_view(),
                    payload,
                ) {
                    Ok(state) => result is Ok && final(self)@ == state,
                    Err(error) => result matches Err(e) && e@ == error && final(self)@ == old(self)@,
                }),
    {
        let SseFrame { event_name, data } = frame;
        let payload = decode_stream_payload(data.as_str());
        let ghost decoded = payload;
        let result = self.apply_event(event_name, payload);
        assert(payload_decodes(frame.data@, decoded));
        result
    }

    /// Ends the stream: the gathered model events, attributed to `model` of
    /// the provider `openai`, if the response was completed.
    pub fn into_events(self, model: &ModelId) -> (result: Result<
        Vec<ConversationEventKind>,
        ModelDriverError,
    >)
        ensures
            !self@.completed ==> (result matches Err(e) && e@ == invalid_response(
                "response.completed was not received"@,
            )),
            self@.completed ==> (result matches Ok(kinds) && kinds@.len() == self@.events.len()
                && forall|i: int|
                0 <= i < kinds@.len() ==> (#[trigger] kinds@[i] matches ConversationEventKind::Model {
                    source,
                    event,
                } && source.provider@ == "openai"@ && source.model@ == model@ && event@
                    == self@.events[i])),
    {
        if !self.completed {
            return Err(
                ModelDriverError::InvalidResponse(
                    String::from_str("response.completed was not received"),
                ),
            );
        }
        let ghost all = self.events@;
        let mut remaining = self.events;
        let mut kinds: Vec<ConversationEventKind> = Vec::new();
        while remaining.len() > 0
            invariant
                kinds@.len() + remaining@.len() == all.len(),
                remaining@ == all.skip(kinds@.len() as int),
                forall|i: int|
                    0 <= i < kinds@.len() ==> (#[trigger] kinds@[i] matches ConversationEventKind::Model {
                        source,
                        event,
                    } && source.provider@ == "openai"@ && source.model@ == model@ && event@
                        == all[i]@),
            decreases remaining.len(),
        {
            let source = ModelSource::new(
                ProviderId::new(String::from_str("openai")),
                ModelId::new(model.as_str().to_owned()),
            );
            let event = remaining.remove(0);
            assert(event == all[kinds@.len() as int]);
            kinds.push(ConversationEventKind::Model { source, event });
            assert(remaining@ =~= all.skip(kinds@.len() as int));
        }
        Ok(kinds)
    }
}

} // verus!
