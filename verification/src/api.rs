//! The HTTP boundary: a quest proposed through the web form, on its way to
//! the bus.

use vstd::prelude::*;
use crate::envelope::{outbound_record, record_of, Event, EventModel, Outbound, OutboundModel};
use crate::json::{
    lemma_lookup_first, numbers_fit, parse_fields, parsed_object, render_fields, rendered_object,
    text_at, text_field, FieldsModel, JsonModel, JsonValue,
};
use crate::payload::{QuestModel, QuestPayload};
use crate::producer::{fresh_quest_id, QuestCategory};
use crate::text::Text;

verus! {

/// A quest proposed through the web form.
#[derive(Debug)]
pub struct WebsiteQuestSubmission {
    pub title: String,
    pub description: String,
}

/// A `WebsiteQuestSubmission` as the contracts see it.
pub struct WebsiteSubmissionModel {
    pub title: Text,
    pub description: Text,
}

impl DeepView for WebsiteQuestSubmission {
    type V = WebsiteSubmissionModel;

    open spec fn deep_view(&self) -> WebsiteSubmissionModel {
        WebsiteSubmissionModel {
            title: self.title@,
            description: self.description@,
        }
    }
}

impl WebsiteSubmissionModel {
    /// The document of this value: its fields, in order.
    pub open spec fn fields(self) -> FieldsModel {
        seq![
            ("title"@, JsonModel::Text(self.title)),
            ("description"@, JsonModel::Text(self.description)),
        ]
    }

    /// Whether a document holds every field that reading needs, each of
    /// the right kind.
    pub open spec fn readable(fields: FieldsModel) -> bool {
        &&& text_at(fields, "title"@) is Some
        &&& text_at(fields, "description"@) is Some
    }

    /// The value that a document holds, if it is readable.
    pub open spec fn from_fields(fields: FieldsModel) -> Option<WebsiteSubmissionModel> {
        if Self::readable(fields) {
            Some(
                WebsiteSubmissionModel {
                    title: text_at(fields, "title"@).unwrap(),
                    description: text_at(fields, "description"@).unwrap(),
                },
            )
        } else {
            None
        }
    }

    /// The JSON text of this value.
    pub open spec fn encoded(self) -> Text {
        rendered_object(self.fields())
    }

    /// The value that a JSON text holds, if the text is a readable document.
    pub open spec fn decoded(text: Text) -> Option<WebsiteSubmissionModel> {
        match parsed_object(text) {
            Some(fields) => Self::from_fields(fields),
            None => None,
        }
    }

    /// Reading back the document of a value gives the value.
    pub proof fn law_fields_round_trip(self)
        ensures
            Self::from_fields(self.fields()) == Some(self),
    {
        reveal_strlit("title");
        reveal_strlit("description");
        let f = self.fields();
        assert("title"@.len() == 5 && "title"@[0] == 't');
        assert("description"@.len() == 11 && "description"@[0] == 'd');
        lemma_lookup_first(f, "title"@, 0);
        lemma_lookup_first(f, "description"@, 1);
    }
}

impl WebsiteQuestSubmission {
    /// The fields of this value's document, in order.
    pub fn to_fields(&self) -> (fields: Vec<(String, JsonValue)>)
        ensures
            fields.deep_view() == self.deep_view().fields(),
            numbers_fit(fields.deep_view()),
    {
        let mut fields: Vec<(String, JsonValue)> = Vec::new();
        fields.push(("title".to_string(), JsonValue::Text(self.title.clone())));
        fields.push(("description".to_string(), JsonValue::Text(self.description.clone())));
        assert(fields.deep_view() =~= self.deep_view().fields());
        fields
    }

    /// Reads a value out of a document's fields.
    pub fn from_fields(fields: &Vec<(String, JsonValue)>) -> (value: Option<WebsiteQuestSubmission>)
        ensures
            value.deep_view() == WebsiteSubmissionModel::from_fields(fields.deep_view()),
    {
        let title = match text_field(fields, "title") {
            Some(v) => v,
            None => return None,
        };
        let description = match text_field(fields, "description") {
            Some(v) => v,
            None => return None,
        };
        Some(WebsiteQuestSubmission { title, description })
    }

    /// The JSON text of this value.
    pub fn encode(&self) -> (text: String)
        ensures
            text@ == self.deep_view().encoded(),
    {
        let fields = self.to_fields();
        render_fields(&fields).unwrap()
    }

    /// Reads a value from JSON text; nothing if the text is not a
    /// readable document.
    pub fn decode(text: &str) -> (value: Option<WebsiteQuestSubmission>)
        ensures
            value.deep_view() == WebsiteSubmissionModel::decoded(text@),
    {
        match parse_fields(text) {
            Some(fields) => Self::from_fields(&fields),
            None => None,
        }
    }
}

/// The key under which web submissions travel, and the creator that they
/// are recorded under.
pub open spec fn web_key() -> Text {
    "WEB_SUBMISSION"@
}

/// The organizer that a web submission is recorded under.
pub open spec fn web_organizer() -> Text {
    "Website"@
}

/// The quest that a web submission proposes under the given id: the title
/// and the description are those of the form; it is a community quest
/// organized by the website and created by the web key, with no slots, no
/// schedule, no platform and no deadline until the staff edit it.
pub open spec fn proposed_quest(quest_id: Text, submission: WebsiteSubmissionModel) -> QuestModel {
    QuestModel {
        quest_id,
        title: submission.title,
        description: submission.description,
        category: QuestCategory::Community.name(),
        organizer_name: web_organizer(),
        slots: 0,
        schedule: Seq::empty(),
        platform: Seq::empty(),
        deadline: Seq::empty(),
        creator_id: web_key(),
    }
}

/// The message that publishes a web submission: the envelope of the event
/// that creates the proposed quest, under the key of web submissions.
pub open spec fn web_outbound(quest_id: Text, submission: WebsiteSubmissionModel)
    -> OutboundModel {
    record_of(EventModel::CreateQuest(proposed_quest(quest_id, submission)).envelope(), web_key())
}

/// Turns a web submission into the event that creates the quest it
/// proposes, under the given id.
pub fn propose_quest(quest_id: String, submission: &WebsiteQuestSubmission) -> (event: Event)
    ensures
        event.deep_view() == EventModel::CreateQuest(
            proposed_quest(quest_id@, submission.deep_view()),
        ),
{
    Event::CreateQuest(
        QuestPayload {
            quest_id,
            title: submission.title.clone(),
            description: submission.description.clone(),
            category: QuestCategory::Community.as_str().to_string(),
            organizer_name: "Website".to_string(),
            slots: 0,
            schedule: String::new(),
            platform: String::new(),
            deadline: String::new(),
            creator_id: "WEB_SUBMISSION".to_string(),
        },
    )
}

/// Prepares a web submission for the bus as the creation of the quest it
/// proposes under the given id.
pub fn web_submission_record(quest_id: String, submission: &WebsiteQuestSubmission) -> (out:
    Outbound)
    ensures
        out.deep_view() == web_outbound(quest_id@, submission.deep_view()),
{
    let event = propose_quest(quest_id, submission);
    let message = event.envelope();
    outbound_record(&message, "WEB_SUBMISSION")
}

/// Prepares a web submission for the bus: one record, under the key of web
/// submissions, that creates the proposed quest under a fresh id.
pub fn submit_handler(submission: &WebsiteQuestSubmission) -> (out: Outbound)
    ensures
        exists|quest_id: Text| out.deep_view() == #[trigger] web_outbound(
            quest_id,
            submission.deep_view(),
        ),
{
    let quest_id = fresh_quest_id();
    web_submission_record(quest_id, submission)
}

} // verus!
