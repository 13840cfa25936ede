//! The event envelope: an event type and a payload, itself JSON text.
//!
//! A payload is written out on its own first; the envelope then carries that
//! text as a string field, so a message on the bus is encoded twice.

use vstd::prelude::*;
use crate::json::{
    lemma_lookup_first, numbers_fit, parse_fields, parsed_object, render_fields, rendered_object,
    text_at, text_field, FieldsModel, JsonModel, JsonValue,
};
use crate::payload::{
    DeleteModel, DeletePayload, EditModel, EditPayload, NewCommunityModel,
    NewCommunityPayload, ProofModel, ProofPayload, QuestModel, QuestPayload, RegistrationModel,
    RegistrationPayload,
};
use crate::text::{same_text, Text};

verus! {

/// What travels on the bus: the type of an event and its payload as JSON text.
#[derive(Debug)]
pub struct EventMessage {
    pub event_type: String,
    pub payload: String,
}

/// An `EventMessage` as the contracts see it.
pub struct EventMessageModel {
    pub event_type: Text,
    pub payload: Text,
}

impl DeepView for EventMessage {
    type V = EventMessageModel;

    open spec fn deep_view(&self) -> EventMessageModel {
        EventMessageModel {
            event_type: self.event_type@,
            payload: self.payload@,
        }
    }
}

impl EventMessageModel {
    /// The document of this value: its fields, in order.
    pub open spec fn fields(self) -> FieldsModel {
        seq![
            ("event_type"@, JsonModel::Text(self.event_type)),
            ("payload"@, JsonModel::Text(self.payload)),
        ]
    }

    /// Whether a document holds every field that reading needs, each of
    /// the right kind.
    pub open spec fn readable(fields: FieldsModel) -> bool {
        &&& text_at(fields, "event_type"@) is Some
        &&& text_at(fields, "payload"@) is Some
    }

    /// The value that a document holds, if it is readable.
    pub open spec fn from_fields(fields: FieldsModel) -> Option<EventMessageModel> {
        if Self::readable(fields) {
            Some(
                EventMessageModel {
                    event_type: text_at(fields, "event_type"@).unwrap(),
                    payload: text_at(fields, "payload"@).unwrap(),
                },
            )
        } else {
            None
        }
    }

    /// The JSON text of this value.
    pub open spec fn encoded(self) -> Text {
        rendered_object(self.fields())
    }

    /// The value that a JSON text holds, if the text is a readable document.
    pub open spec fn decoded(text: Text) -> Option<EventMessageModel> {
        match parsed_object(text) {
            Some(fields) => Self::from_fields(fields),
            None => None,
        }
    }

    /// Reading back the document of a value gives the value.
    pub proof fn law_fields_round_trip(self)
        ensures
            Self::from_fields(self.fields()) == Some(self),
    {
        reveal_strlit("event_type");
        reveal_strlit("payload");
        let f = self.fields();
        assert("event_type"@.len() == 10 && "event_type"@[0] == 'e');
        assert("payload"@.len() == 7 && "payload"@[0] == 'p');
        lemma_lookup_first(f, "event_type"@, 0);
        lemma_lookup_first(f, "payload"@, 1);
    }
}

impl EventMessage {
    /// The fields of this value's document, in order.
    pub fn to_fields(&self) -> (fields: Vec<(String, JsonValue)>)
        ensures
            fields.deep_view() == self.deep_view().fields(),
            numbers_fit(fields.deep_view()),
    {
        let mut fields: Vec<(String, JsonValue)> = Vec::new();
        fields.push(("event_type".to_string(), JsonValue::Text(self.event_type.clone())));
        fields.push(("payload".to_string(), JsonValue::Text(self.payload.clone())));
        assert(fields.deep_view() =~= self.deep_view().fields());
        fields
    }

    /// Reads a value out of a document's fields.
    pub fn from_fields(fields: &Vec<(String, JsonValue)>) -> (value: Option<EventMessage>)
        ensures
            value.deep_view() == EventMessageModel::from_fields(fields.deep_view()),
    {
        let event_type = match text_field(fields, "event_type") {
            Some(v) => v,
            None => return None,
        };
        let payload = match text_field(fields, "payload") {
            Some(v) => v,
            None => return None,
        };
        Some(EventMessage { event_type, payload })
    }

    /// The JSON text of this value.
    pub fn encode(&self) -> (text: String)
        ensures
            text@ == self.deep_view().encoded(),
    {
        let fields = self.to_fields();
        render_fields(&fields).unwrap()
    }

    /// Reads a value from JSON text; nothing if the text is not a
    /// readable document.
    pub fn decode(text: &str) -> (value: Option<EventMessage>)
        ensures
            value.deep_view() == EventMessageModel::decoded(text@),
    {
        match parse_fields(text) {
            Some(fields) => Self::from_fields(&fields),
            None => None,
        }
    }
}

/// An event with its payload read.
#[derive(Debug)]
pub enum Event {
    CreateQuest(QuestPayload),
    EditQuest(EditPayload),
    DeleteQuest(DeletePayload),
    TakeQuest(RegistrationPayload),
    DropQuest(RegistrationPayload),
    SubmitProof(ProofPayload),
    RegisterCommunity(NewCommunityPayload),
}

/// An `Event` as the contracts see it.
pub enum EventModel {
    CreateQuest(QuestModel),
    EditQuest(EditModel),
    DeleteQuest(DeleteModel),
    TakeQuest(RegistrationModel),
    DropQuest(RegistrationModel),
    SubmitProof(ProofModel),
    RegisterCommunity(NewCommunityModel),
}

impl DeepView for Event {
    type V = EventModel;

    open spec fn deep_view(&self) -> EventModel {
        match self {
            Event::CreateQuest(p) => EventModel::CreateQuest(p.deep_view()),
            Event::EditQuest(p) => EventModel::EditQuest(p.deep_view()),
            Event::DeleteQuest(p) => EventModel::DeleteQuest(p.deep_view()),
            Event::TakeQuest(p) => EventModel::TakeQuest(p.deep_view()),
            Event::DropQuest(p) => EventModel::DropQuest(p.deep_view()),
            Event::SubmitProof(p) => EventModel::SubmitProof(p.deep_view()),
            Event::RegisterCommunity(p) => EventModel::RegisterCommunity(p.deep_view()),
        }
    }
}

/// What reading a message gave.
#[derive(Debug)]
pub enum Decoded {
    /// A recognized event whose payload could be read.
    Event(Event),
    /// A recognized event type whose payload is not a readable document.
    Malformed,
    /// An event type that the ledger does not know.
    Unknown,
}

/// A `Decoded` as the contracts see it.
pub enum DecodedModel {
    Event(EventModel),
    Malformed,
    Unknown,
}

impl DeepView for Decoded {
    type V = DecodedModel;

    open spec fn deep_view(&self) -> DecodedModel {
        match self {
            Decoded::Event(e) => DecodedModel::Event(e.deep_view()),
            Decoded::Malformed => DecodedModel::Malformed,
            Decoded::Unknown => DecodedModel::Unknown,
        }
    }
}

/// A message ready for the bus.
#[derive(Debug)]
pub struct Outbound {
    /// The topic to publish on.
    pub topic: String,
    /// The record key: the event type.
    pub key: String,
    /// The record value: the encoded envelope.
    pub body: String,
    /// How long a publish may take, in seconds.
    pub timeout_secs: u64,
}

/// An `Outbound` as the contracts see it.
pub struct OutboundModel {
    pub topic: Text,
    pub key: Text,
    pub body: Text,
    pub timeout_secs: u64,
}

impl DeepView for Outbound {
    type V = OutboundModel;

    open spec fn deep_view(&self) -> OutboundModel {
        OutboundModel {
            topic: self.topic@,
            key: self.key@,
            body: self.body@,
            timeout_secs: self.timeout_secs,
        }
    }
}

/// The single topic that carries every event.
pub open spec fn topic() -> Text {
    "quest.events"@
}

/// The bound on one publish, in seconds.
pub const PUBLISH_TIMEOUT_SECS: u64 = 5;

impl EventModel {
    /// The event type under which this event travels.
    pub open spec fn event_type(self) -> Text {
        match self {
            EventModel::CreateQuest(_) => "CREATE_QUEST"@,
            EventModel::EditQuest(_) => "EDIT_QUEST"@,
            EventModel::DeleteQuest(_) => "DELETE_QUEST"@,
            EventModel::TakeQuest(_) => "TAKE_QUEST"@,
            EventModel::DropQuest(_) => "DROP_QUEST"@,
            EventModel::SubmitProof(_) => "SUBMIT_PROOF"@,
            EventModel::RegisterCommunity(_) => "REGISTER_COMMUNITY"@,
        }
    }

    /// The JSON text of this event's payload.
    pub open spec fn payload_text(self) -> Text {
        match self {
            EventModel::CreateQuest(p) => p.encoded(),
            EventModel::EditQuest(p) => p.encoded(),
            EventModel::DeleteQuest(p) => p.encoded(),
            EventModel::TakeQuest(p) => p.encoded(),
            EventModel::DropQuest(p) => p.encoded(),
            EventModel::SubmitProof(p) => p.encoded(),
            EventModel::RegisterCommunity(p) => p.encoded(),
        }
    }

    /// The envelope of this event.
    pub open spec fn envelope(self) -> EventMessageModel {
        EventMessageModel { event_type: self.event_type(), payload: self.payload_text() }
    }

    /// The message that publishes this event.
    pub open spec fn outbound(self) -> OutboundModel {
        outbound_of(self.envelope())
    }
}

/// The message that publishes an envelope under a given key.
pub open spec fn record_of(message: EventMessageModel, key: Text) -> OutboundModel {
    OutboundModel {
        topic: topic(),
        key,
        body: message.encoded(),
        timeout_secs: PUBLISH_TIMEOUT_SECS,
    }
}

/// The message that publishes an envelope under its event type.
pub open spec fn outbound_of(message: EventMessageModel) -> OutboundModel {
    record_of(message, message.event_type)
}

/// What a message decodes to: its event type picks the payload shape, and
/// the payload text is read as that shape.
pub open spec fn decoded_event(message: EventMessageModel) -> DecodedModel {
    let kind = message.event_type;
    let text = message.payload;
    if kind == "CREATE_QUEST"@ {
        match QuestModel::decoded(text) {
            Some(p) => DecodedModel::Event(EventModel::CreateQuest(p)),
            None => DecodedModel::Malformed,
        }
    } else if kind == "EDIT_QUEST"@ {
        match EditModel::decoded(text) {
            Some(p) => DecodedModel::Event(EventModel::EditQuest(p)),
            None => DecodedModel::Malformed,
        }
    } else if kind == "DELETE_QUEST"@ {
        match DeleteModel::decoded(text) {
            Some(p) => DecodedModel::Event(EventModel::DeleteQuest(p)),
            None => DecodedModel::Malformed,
        }
    } else if kind == "TAKE_QUEST"@ {
        match RegistrationModel::decoded(text) {
            Some(p) => DecodedModel::Event(EventModel::TakeQuest(p)),
            None => DecodedModel::Malformed,
        }
    } else if kind == "REGISTER_COMMUNITY"@ {
        match NewCommunityModel::decoded(text) {
            Some(p) => DecodedModel::Event(EventModel::RegisterCommunity(p)),
            None => DecodedModel::Malformed,
        }
    } else if kind == "SUBMIT_PROOF"@ {
        match ProofModel::decoded(text) {
            Some(p) => DecodedModel::Event(EventModel::SubmitProof(p)),
            None => DecodedModel::Malformed,
        }
    } else if kind == "DROP_QUEST"@ {
        match RegistrationModel::decoded(text) {
            Some(p) => DecodedModel::Event(EventModel::DropQuest(p)),
            None => DecodedModel::Malformed,
        }
    } else {
        DecodedModel::Unknown
    }
}

impl Event {
    /// The event type under which this event travels.
    pub fn event_type(&self) -> (name: &'static str)
        ensures
            name@ == self.deep_view().event_type(),
    {
        match self {
            Event::CreateQuest(_) => "CREATE_QUEST",
            Event::EditQuest(_) => "EDIT_QUEST",
            Event::DeleteQuest(_) => "DELETE_QUEST",
            Event::TakeQuest(_) => "TAKE_QUEST",
            Event::DropQuest(_) => "DROP_QUEST",
            Event::SubmitProof(_) => "SUBMIT_PROOF",
            Event::RegisterCommunity(_) => "REGISTER_COMMUNITY",
        }
    }

    /// The JSON text of this event's payload.
    pub fn payload_text(&self) -> (text: String)
        ensures
            text@ == self.deep_view().payload_text(),
    {
        match self {
            Event::CreateQuest(p) => p.encode(),
            Event::EditQuest(p) => p.encode(),
            Event::DeleteQuest(p) => p.encode(),
            Event::TakeQuest(p) => p.encode(),
            Event::DropQuest(p) => p.encode(),
            Event::SubmitProof(p) => p.encode(),
            Event::RegisterCommunity(p) => p.encode(),
        }
    }

    /// Wraps this event in its envelope.
    pub fn envelope(&self) -> (message: EventMessage)
        ensures
            message.deep_view() == self.deep_view().envelope(),
    {
        EventMessage { event_type: self.event_type().to_string(), payload: self.payload_text() }
    }
}

/// Prepares an envelope for the bus under a given key: the topic is fixed
/// and a publish is bounded by [`PUBLISH_TIMEOUT_SECS`].
pub fn outbound_record(message: &EventMessage, key: &str) -> (out: Outbound)
    ensures
        out.deep_view() == record_of(message.deep_view(), key@),
{
    Outbound {
        topic: "quest.events".to_string(),
        key: key.to_string(),
        body: message.encode(),
        timeout_secs: PUBLISH_TIMEOUT_SECS,
    }
}

/// Prepares an envelope for the bus under its event type.
pub fn outbound_message(message: &EventMessage) -> (out: Outbound)
    ensures
        out.deep_view() == outbound_of(message.deep_view()),
{
    outbound_record(message, message.event_type.as_str())
}

/// Prepares an event for publishing: encodes the payload, wraps it in the
/// envelope, encodes the envelope, and addresses the record.
pub fn produce_event(event: &Event) -> (out: Outbound)
    ensures
        out.deep_view() == event.deep_view().outbound(),
{
    let message = event.envelope();
    outbound_message(&message)
}

/// Reads the payload of a message as the shape that its event type names.
pub fn decode_event(message: &EventMessage) -> (decoded: Decoded)
    ensures
        decoded.deep_view() == decoded_event(message.deep_view()),
{
    let kind = message.event_type.as_str();
    let text = message.payload.as_str();
    if same_text(kind, "CREATE_QUEST") {
        match QuestPayload::decode(text) {
            Some(p) => Decoded::Event(Event::CreateQuest(p)),
            None => Decoded::Malformed,
        }
    } else if same_text(kind, "EDIT_QUEST") {
        match EditPayload::decode(text) {
            Some(p) => Decoded::Event(Event::EditQuest(p)),
            None => Decoded::Malformed,
        }
    } else if same_text(kind, "DELETE_QUEST") {
        match DeletePayload::decode(text) {
            Some(p) => Decoded::Event(Event::DeleteQuest(p)),
            None => Decoded::Malformed,
        }
    } else if same_text(kind, "TAKE_QUEST") {
        match RegistrationPayload::decode(text) {
            Some(p) => Decoded::Event(Event::TakeQuest(p)),
            None => Decoded::Malformed,
        }
    } else if same_text(kind, "REGISTER_COMMUNITY") {
        match NewCommunityPayload::decode(text) {
            Some(p) => Decoded::Event(Event::RegisterCommunity(p)),
            None => Decoded::Malformed,
        }
    } else if same_text(kind, "SUBMIT_PROOF") {
        match ProofPayload::decode(text) {
            Some(p) => Decoded::Event(Event::SubmitProof(p)),
            None => Decoded::Malformed,
        }
    } else if same_text(kind, "DROP_QUEST") {
        match RegistrationPayload::decode(text) {
            Some(p) => Decoded::Event(Event::DropQuest(p)),
            None => Decoded::Malformed,
        }
    } else {
        Decoded::Unknown
    }
}

/// Reads a bus record: first the envelope, then the payload it carries.
/// Text that is not an envelope is malformed.
pub fn decode_message(text: &str) -> (decoded: Decoded)
    ensures
        decoded.deep_view() == match EventMessageModel::decoded(text@) {
            Some(message) => decoded_event(message),
            None => DecodedModel::Malformed,
        },
{
    match EventMessage::decode(text) {
        Some(message) => decode_event(&message),
        None => Decoded::Malformed,
    }
}

} // verus!
