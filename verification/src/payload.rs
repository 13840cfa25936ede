//! The typed payloads that events carry, and their documents.
//!
//! Every payload is a flat JSON object. A payload is written by listing its
//! fields in declaration order, and read by looking each field up by name;
//! fields that a payload does not know are ignored.

use vstd::prelude::*;
use crate::json::{
    i8_at, i8_field, lemma_lookup_first, numbers_fit, parse_fields, parsed_object, render_fields,
    rendered_object, text_at, text_field, FieldsModel, JsonModel, JsonValue,
};
use crate::text::Text;

verus! {

/// The string held by the field `key`, or the empty text when the field is
/// missing or holds something else.
pub open spec fn text_or_empty(fields: FieldsModel, key: Text) -> Text {
    match text_at(fields, key) {
        Some(t) => t,
        None => Seq::empty(),
    }
}

/// A new quest. `creator_id` is carried for the record: a document without it
/// still reads, with an empty creator.
#[derive(Debug)]
pub struct QuestPayload {
    pub quest_id: String,
    pub title: String,
    pub description: String,
    pub category: String,
    pub organizer_name: String,
    pub slots: i8,
    pub schedule: String,
    pub platform: String,
    pub deadline: String,
    pub creator_id: String,
}

/// A `QuestPayload` as the contracts see it.
pub struct QuestModel {
    pub quest_id: Text,
    pub title: Text,
    pub description: Text,
    pub category: Text,
    pub organizer_name: Text,
    pub slots: i8,
    pub schedule: Text,
    pub platform: Text,
    pub deadline: Text,
    pub creator_id: Text,
}

impl DeepView for QuestPayload {
    type V = QuestModel;

    open spec fn deep_view(&self) -> QuestModel {
        QuestModel {
            quest_id: self.quest_id@,
            title: self.title@,
            description: self.description@,
            category: self.category@,
            organizer_name: self.organizer_name@,
            slots: self.slots,
            schedule: self.schedule@,
            platform: self.platform@,
            deadline: self.deadline@,
            creator_id: self.creator_id@,
        }
    }
}

impl QuestModel {
    /// The document of this value: its fields, in order.
    pub open spec fn fields(self) -> FieldsModel {
        seq![
            ("quest_id"@, JsonModel::Text(self.quest_id)),
            ("title"@, JsonModel::Text(self.title)),
            ("description"@, JsonModel::Text(self.description)),
            ("category"@, JsonModel::Text(self.category)),
            ("organizer_name"@, JsonModel::Text(self.organizer_name)),
            ("slots"@, JsonModel::Number(self.slots as int)),
            ("schedule"@, JsonModel::Text(self.schedule)),
            ("platform"@, JsonModel::Text(self.platform)),
            ("deadline"@, JsonModel::Text(self.deadline)),
            ("creator_id"@, JsonModel::Text(self.creator_id)),
        ]
    }

    /// Whether a document holds every field that reading needs, each of
    /// the right kind.
    pub open spec fn readable(fields: FieldsModel) -> bool {
        &&& text_at(fields, "quest_id"@) is Some
        &&& text_at(fields, "title"@) is Some
        &&& text_at(fields, "description"@) is Some
        &&& text_at(fields, "category"@) is Some
        &&& text_at(fields, "organizer_name"@) is Some
        &&& i8_at(fields, "slots"@) is Some
        &&& text_at(fields, "schedule"@) is Some
        &&& text_at(fields, "platform"@) is Some
        &&& text_at(fields, "deadline"@) is Some
    }

    /// The value that a document holds, if it is readable.
    pub open spec fn from_fields(fields: FieldsModel) -> Option<QuestModel> {
        if Self::readable(fields) {
            Some(
                QuestModel {
                    quest_id: text_at(fields, "quest_id"@).unwrap(),
                    title: text_at(fields, "title"@).unwrap(),
                    description: text_at(fields, "description"@).unwrap(),
                    category: text_at(fields, "category"@).unwrap(),
                    organizer_name: text_at(fields, "organizer_name"@).unwrap(),
                    slots: i8_at(fields, "slots"@).unwrap(),
                    schedule: text_at(fields, "schedule"@).unwrap(),
                    platform: text_at(fields, "platform"@).unwrap(),
                    deadline: text_at(fields, "deadline"@).unwrap(),
                    creator_id: text_or_empty(fields, "creator_id"@),
                },
            )
        } else {
            None
        }
    }

    /// The JSON text of this value.
    pub open spec fn encoded(self) -> Text {
        rendered_object(self.fields())
    }

    /// The value that a JSON text holds, if the text is a readable document.
    pub open spec fn decoded(text: Text) -> Option<QuestModel> {
        match parsed_object(text) {
            Some(fields) => Self::from_fields(fields),
            None => None,
        }
    }

    /// Reading back the document of a value gives the value.
    pub proof fn law_fields_round_trip(self)
        ensures
            Self::from_fields(self.fields()) == Some(self),
    {
        reveal_strlit("quest_id");
        reveal_strlit("title");
        reveal_strlit("description");
        reveal_strlit("category");
        reveal_strlit("organizer_name");
        reveal_strlit("slots");
        reveal_strlit("schedule");
        reveal_strlit("platform");
        reveal_strlit("deadline");
        reveal_strlit("creator_id");
        let f = self.fields();
        assert("quest_id"@.len() == 8 && "quest_id"@[0] == 'q');
        assert("title"@.len() == 5 && "title"@[0] == 't');
        assert("description"@.len() == 11 && "description"@[0] == 'd');
        assert("category"@.len() == 8 && "category"@[0] == 'c');
        assert("organizer_name"@.len() == 14 && "organizer_name"@[0] == 'o');
        assert("slots"@.len() == 5 && "slots"@[0] == 's');
        assert("schedule"@.len() == 8 && "schedule"@[0] == 's');
        assert("platform"@.len() == 8 && "platform"@[0] == 'p');
        assert("deadline"@.len() == 8 && "deadline"@[0] == 'd');
        assert("creator_id"@.len() == 10 && "creator_id"@[0] == 'c');
        lemma_lookup_first(f, "quest_id"@, 0);
        lemma_lookup_first(f, "title"@, 1);
        lemma_lookup_first(f, "description"@, 2);
        lemma_lookup_first(f, "category"@, 3);
        lemma_lookup_first(f, "organizer_name"@, 4);
        lemma_lookup_first(f, "slots"@, 5);
        lemma_lookup_first(f, "schedule"@, 6);
        lemma_lookup_first(f, "platform"@, 7);
        lemma_lookup_first(f, "deadline"@, 8);
        lemma_lookup_first(f, "creator_id"@, 9);
    }
}

impl QuestPayload {
    /// The fields of this value's document, in order.
    pub fn to_fields(&self) -> (fields: Vec<(String, JsonValue)>)
        ensures
            fields.deep_view() == self.deep_view().fields(),
            numbers_fit(fields.deep_view()),
    {
        let mut fields: Vec<(String, JsonValue)> = Vec::new();
        fields.push(("quest_id".to_string(), JsonValue::Text(self.quest_id.clone())));
        fields.push(("title".to_string(), JsonValue::Text(self.title.clone())));
        fields.push(("description".to_string(), JsonValue::Text(self.description.clone())));
        fields.push(("category".to_string(), JsonValue::Text(self.category.clone())));
        fields.push(("organizer_name".to_string(), JsonValue::Text(self.organizer_name.clone())));
        fields.push(("slots".to_string(), JsonValue::Number(self.slots as i128)));
        fields.push(("schedule".to_string(), JsonValue::Text(self.schedule.clone())));
        fields.push(("platform".to_string(), JsonValue::Text(self.platform.clone())));
        fields.push(("deadline".to_string(), JsonValue::Text(self.deadline.clone())));
        fields.push(("creator_id".to_string(), JsonValue::Text(self.creator_id.clone())));
        assert(fields.deep_view() =~= self.deep_view().fields());
        fields
    }

    /// Reads a value out of a document's fields.
    pub fn from_fields(fields: &Vec<(String, JsonValue)>) -> (value: Option<QuestPayload>)
        ensures
            value.deep_view() == QuestModel::from_fields(fields.deep_view()),
    {
        let quest_id = match text_field(fields, "quest_id") {
            Some(v) => v,
            None => return None,
        };
        let title = match text_field(fields, "title") {
            Some(v) => v,
            None => return None,
        };
        let description = match text_field(fields, "description") {
            Some(v) => v,
            None => return None,
        };
        let category = match text_field(fields, "category") {
            Some(v) => v,
            None => return None,
        };
        let organizer_name = match text_field(fields, "organizer_name") {
            Some(v) => v,
            None => return None,
        };
        let slots = match i8_field(fields, "slots") {
            Some(v) => v,
            None => return None,
        };
        let schedule = match text_field(fields, "schedule") {
            Some(v) => v,
            None => return None,
        };
        let platform = match text_field(fields, "platform") {
            Some(v) => v,
            None => return None,
        };
        let deadline = match text_field(fields, "deadline") {
            Some(v) => v,
            None => return None,
        };
        let creator_id = match text_field(fields, "creator_id") {
            Some(v) => v,
            None => String::new(),
        };
        Some(QuestPayload { quest_id, title, description, category, organizer_name, slots, schedule, platform, deadline, creator_id })
    }

    /// The JSON text of this value.
    pub fn encode(&self) -> (text: String)
        ensures
            text@ == self.deep_view().encoded(),
    {
        let fields = self.to_fields();
        render_fields(&fields).unwrap()
    }

    /// Reads a value from JSON text; nothing if the text is not a
    /// readable document.
    pub fn decode(text: &str) -> (value: Option<QuestPayload>)
        ensures
            value.deep_view() == QuestModel::decoded(text@),
    {
        match parse_fields(text) {
            Some(fields) => Self::from_fields(&fields),
            None => None,
        }
    }
}

/// A participant's claim on a quest, or its withdrawal.
#[derive(Debug)]
pub struct RegistrationPayload {
    pub quest_id: String,
    pub user_id: String,
    pub user_tag: String,
}

/// A `RegistrationPayload` as the contracts see it.
pub struct RegistrationModel {
    pub quest_id: Text,
    pub user_id: Text,
    pub user_tag: Text,
}

impl DeepView for RegistrationPayload {
    type V = RegistrationModel;

    open spec fn deep_view(&self) -> RegistrationModel {
        RegistrationModel {
            quest_id: self.quest_id@,
            user_id: self.user_id@,
            user_tag: self.user_tag@,
        }
    }
}

impl RegistrationModel {
    /// The document of this value: its fields, in order.
    pub open spec fn fields(self) -> FieldsModel {
        seq![
            ("quest_id"@, JsonModel::Text(self.quest_id)),
            ("user_id"@, JsonModel::Text(self.user_id)),
            ("user_tag"@, JsonModel::Text(self.user_tag)),
        ]
    }

    /// Whether a document holds every field that reading needs, each of
    /// the right kind.
    pub open spec fn readable(fields: FieldsModel) -> bool {
        &&& text_at(fields, "quest_id"@) is Some
        &&& text_at(fields, "user_id"@) is Some
        &&& text_at(fields, "user_tag"@) is Some
    }

    /// The value that a document holds, if it is readable.
    pub open spec fn from_fields(fields: FieldsModel) -> Option<RegistrationModel> {
        if Self::readable(fields) {
            Some(
                RegistrationModel {
                    quest_id: text_at(fields, "quest_id"@).unwrap(),
                    user_id: text_at(fields, "user_id"@).unwrap(),
                    user_tag: text_at(fields, "user_tag"@).unwrap(),
                },
            )
        } else {
            None
        }
    }

    /// The JSON text of this value.
    pub open spec fn encoded(self) -> Text {
        rendered_object(self.fields())
    }

    /// The value that a JSON text holds, if the text is a readable document.
    pub open spec fn decoded(text: Text) -> Option<RegistrationModel> {
        match parsed_object(text) {
            Some(fields) => Self::from_fields(fields),
            None => None,
        }
    }

    /// Reading back the document of a value gives the value.
    pub proof fn law_fields_round_trip(self)
        ensures
            Self::from_fields(self.fields()) == Some(self),
    {
        reveal_strlit("quest_id");
        reveal_strlit("user_id");
        reveal_strlit("user_tag");
        let f = self.fields();
        assert("quest_id"@.len() == 8 && "quest_id"@[0] == 'q');
        assert("user_id"@.len() == 7 && "user_id"@[0] == 'u');
        assert("user_tag"@.len() == 8 && "user_tag"@[0] == 'u');
        lemma_lookup_first(f, "quest_id"@, 0);
        lemma_lookup_first(f, "user_id"@, 1);
        lemma_lookup_first(f, "user_tag"@, 2);
    }
}

impl RegistrationPayload {
    /// The fields of this value's document, in order.
    pub fn to_fields(&self) -> (fields: Vec<(String, JsonValue)>)
        ensures
            fields.deep_view() == self.deep_view().fields(),
            numbers_fit(fields.deep_view()),
    {
        let mut fields: Vec<(String, JsonValue)> = Vec::new();
        fields.push(("quest_id".to_string(), JsonValue::Text(self.quest_id.clone())));
        fields.push(("user_id".to_string(), JsonValue::Text(self.user_id.clone())));
        fields.push(("user_tag".to_string(), JsonValue::Text(self.user_tag.clone())));
        assert(fields.deep_view() =~= self.deep_view().fields());
        fields
    }

    /// Reads a value out of a document's fields.
    pub fn from_fields(fields: &Vec<(String, JsonValue)>) -> (value: Option<RegistrationPayload>)
        ensures
            value.deep_view() == RegistrationModel::from_fields(fields.deep_view()),
    {
        let quest_id = match text_field(fields, "quest_id") {
            Some(v) => v,
            None => return None,
        };
        let user_id = match text_field(fields, "user_id") {
            Some(v) => v,
            None => return None,
        };
        let user_tag = match text_field(fields, "user_tag") {
            Some(v) => v,
            None => return None,
        };
        Some(RegistrationPayload { quest_id, user_id, user_tag })
    }

    /// The JSON text of this value.
    pub fn encode(&self) -> (text: String)
        ensures
            text@ == self.deep_view().encoded(),
    {
        let fields = self.to_fields();
        render_fields(&fields).unwrap()
    }

    /// Reads a value from JSON text; nothing if the text is not a
    /// readable document.
    pub fn decode(text: &str) -> (value: Option<RegistrationPayload>)
        ensures
            value.deep_view() == RegistrationModel::decoded(text@),
    {
        match parse_fields(text) {
            Some(fields) => Self::from_fields(&fields),
            None => None,
        }
    }
}

/// New values for the editable fields of a quest.
#[derive(Debug)]
pub struct EditPayload {
    pub quest_id: String,
    pub title: String,
    pub description: String,
    pub slots: i8,
    pub schedule: String,
    pub deadline: String,
    pub platform: String,
}

/// An `EditPayload` as the contracts see it.
pub struct EditModel {
    pub quest_id: Text,
    pub title: Text,
    pub description: Text,
    pub slots: i8,
    pub schedule: Text,
    pub deadline: Text,
    pub platform: Text,
}

impl DeepView for EditPayload {
    type V = EditModel;

    open spec fn deep_view(&self) -> EditModel {
        EditModel {
            quest_id: self.quest_id@,
            title: self.title@,
            description: self.description@,
            slots: self.slots,
            schedule: self.schedule@,
            deadline: self.deadline@,
            platform: self.platform@,
        }
    }
}

impl EditModel {
    /// The document of this value: its fields, in order.
    pub open spec fn fields(self) -> FieldsModel {
        seq![
            ("quest_id"@, JsonModel::Text(self.quest_id)),
            ("title"@, JsonModel::Text(self.title)),
            ("description"@, JsonModel::Text(self.description)),
            ("slots"@, JsonModel::Number(self.slots as int)),
            ("schedule"@, JsonModel::Text(self.schedule)),
            ("deadline"@, JsonModel::Text(self.deadline)),
            ("platform"@, JsonModel::Text(self.platform)),
        ]
    }

    /// Whether a document holds every field that reading needs, each of
    /// the right kind.
    pub open spec fn readable(fields: FieldsModel) -> bool {
        &&& text_at(fields, "quest_id"@) is Some
        &&& text_at(fields, "title"@) is Some
        &&& text_at(fields, "description"@) is Some
        &&& i8_at(fields, "slots"@) is Some
        &&& text_at(fields, "schedule"@) is Some
        &&& text_at(fields, "deadline"@) is Some
        &&& text_at(fields, "platform"@) is Some
    }

    /// The value that a document holds, if it is readable.
    pub open spec fn from_fields(fields: FieldsModel) -> Option<EditModel> {
        if Self::readable(fields) {
            Some(
                EditModel {
                    quest_id: text_at(fields, "quest_id"@).unwrap(),
                    title: text_at(fields, "title"@).unwrap(),
                    description: text_at(fields, "description"@).unwrap(),
                    slots: i8_at(fields, "slots"@).unwrap(),
                    schedule: text_at(fields, "schedule"@).unwrap(),
                    deadline: text_at(fields, "deadline"@).unwrap(),
                    platform: text_at(fields, "platform"@).unwrap(),
                },
            )
        } else {
            None
        }
    }

    /// The JSON text of this value.
    pub open spec fn encoded(self) -> Text {
        rendered_object(self.fields())
    }

    /// The value that a JSON text holds, if the text is a readable document.
    pub open spec fn decoded(text: Text) -> Option<EditModel> {
        match parsed_object(text) {
            Some(fields) => Self::from_fields(fields),
            None => None,
        }
    }

    /// Reading back the document of a value gives the value.
    pub proof fn law_fields_round_trip(self)
        ensures
            Self::from_fields(self.fields()) == Some(self),
    {
        reveal_strlit("quest_id");
        reveal_strlit("title");
        reveal_strlit("description");
        reveal_strlit("slots");
        reveal_strlit("schedule");
        reveal_strlit("deadline");
        reveal_strlit("platform");
        let f = self.fields();
        assert("quest_id"@.len() == 8 && "quest_id"@[0] == 'q');
        assert("title"@.len() == 5 && "title"@[0] == 't');
        assert("description"@.len() == 11 && "description"@[0] == 'd');
        assert("slots"@.len() == 5 && "slots"@[0] == 's');
        assert("schedule"@.len() == 8 && "schedule"@[0] == 's');
        assert("deadline"@.len() == 8 && "deadline"@[0] == 'd');
        assert("platform"@.len() == 8 && "platform"@[0] == 'p');
        lemma_lookup_first(f, "quest_id"@, 0);
        lemma_lookup_first(f, "title"@, 1);
        lemma_lookup_first(f, "description"@, 2);
        lemma_lookup_first(f, "slots"@, 3);
        lemma_lookup_first(f, "schedule"@, 4);
        lemma_lookup_first(f, "deadline"@, 5);
        lemma_lookup_first(f, "platform"@, 6);
    }
}

impl EditPayload {
    /// The fields of this value's document, in order.
    pub fn to_fields(&self) -> (fields: Vec<(String, JsonValue)>)
        ensures
            fields.deep_view() == self.deep_view().fields(),
            numbers_fit(fields.deep_view()),
    {
        let mut fields: Vec<(String, JsonValue)> = Vec::new();
        fields.push(("quest_id".to_string(), JsonValue::Text(self.quest_id.clone())));
        fields.push(("title".to_string(), JsonValue::Text(self.title.clone())));
        fields.push(("description".to_string(), JsonValue::Text(self.description.clone())));
        fields.push(("slots".to_string(), JsonValue::Number(self.slots as i128)));
        fields.push(("schedule".to_string(), JsonValue::Text(self.schedule.clone())));
        fields.push(("deadline".to_string(), JsonValue::Text(self.deadline.clone())));
        fields.push(("platform".to_string(), JsonValue::Text(self.platform.clone())));
        assert(fields.deep_view() =~= self.deep_view().fields());
        fields
    }

    /// Reads a value out of a document's fields.
    pub fn from_fields(fields: &Vec<(String, JsonValue)>) -> (value: Option<EditPayload>)
        ensures
            value.deep_view() == EditModel::from_fields(fields.deep_view()),
    {
        let quest_id = match text_field(fields, "quest_id") {
            Some(v) => v,
            None => return None,
        };
        let title = match text_field(fields, "title") {
            Some(v) => v,
            None => return None,
        };
        let description = match text_field(fields, "description") {
            Some(v) => v,
            None => return None,
        };
        let slots = match i8_field(fields, "slots") {
            Some(v) => v,
            None => return None,
        };
        let schedule = match text_field(fields, "schedule") {
            Some(v) => v,
            None => return None,
        };
        let deadline = match text_field(fields, "deadline") {
            Some(v) => v,
            None => return None,
        };
        let platform = match text_field(fields, "platform") {
            Some(v) => v,
            None => return None,
        };
        Some(EditPayload { quest_id, title, description, slots, schedule, deadline, platform })
    }

    /// The JSON text of this value.
    pub fn encode(&self) -> (text: String)
        ensures
            text@ == self.deep_view().encoded(),
    {
        let fields = self.to_fields();
        render_fields(&fields).unwrap()
    }

    /// Reads a value from JSON text; nothing if the text is not a
    /// readable document.
    pub fn decode(text: &str) -> (value: Option<EditPayload>)
        ensures
            value.deep_view() == EditModel::decoded(text@),
    {
        match parse_fields(text) {
            Some(fields) => Self::from_fields(&fields),
            None => None,
        }
    }
}

/// The quest to remove, with everything that hangs on it.
#[derive(Debug)]
pub struct DeletePayload {
    pub quest_id: String,
}

/// A `DeletePayload` as the contracts see it.
pub struct DeleteModel {
    pub quest_id: Text,
}

impl DeepView for DeletePayload {
    type V = DeleteModel;

    open spec fn deep_view(&self) -> DeleteModel {
        DeleteModel {
            quest_id: self.quest_id@,
        }
    }
}

impl DeleteModel {
    /// The document of this value: its fields, in order.
    pub open spec fn fields(self) -> FieldsModel {
        seq![
            ("quest_id"@, JsonModel::Text(self.quest_id)),
        ]
    }

    /// Whether a document holds every field that reading needs, each of
    /// the right kind.
    pub open spec fn readable(fields: FieldsModel) -> bool {
        &&& text_at(fields, "quest_id"@) is Some
    }

    /// The value that a document holds, if it is readable.
    pub open spec fn from_fields(fields: FieldsModel) -> Option<DeleteModel> {
        if Self::readable(fields) {
            Some(
                DeleteModel {
                    quest_id: text_at(fields, "quest_id"@).unwrap(),
                },
            )
        } else {
            None
        }
    }

    /// The JSON text of this value.
    pub open spec fn encoded(self) -> Text {
        rendered_object(self.fields())
    }

    /// The value that a JSON text holds, if the text is a readable document.
    pub open spec fn decoded(text: Text) -> Option<DeleteModel> {
        match parsed_object(text) {
            Some(fields) => Self::from_fields(fields),
            None => None,
        }
    }

    /// Reading back the document of a value gives the value.
    pub proof fn law_fields_round_trip(self)
        ensures
            Self::from_fields(self.fields()) == Some(self),
    {
        reveal_strlit("quest_id");
        let f = self.fields();
        assert("quest_id"@.len() == 8 && "quest_id"@[0] == 'q');
        lemma_lookup_first(f, "quest_id"@, 0);
    }
}

impl DeletePayload {
    /// The fields of this value's document, in order.
    pub fn to_fields(&self) -> (fields: Vec<(String, JsonValue)>)
        ensures
            fields.deep_view() == self.deep_view().fields(),
            numbers_fit(fields.deep_view()),
    {
        let mut fields: Vec<(String, JsonValue)> = Vec::new();
        fields.push(("quest_id".to_string(), JsonValue::Text(self.quest_id.clone())));
        assert(fields.deep_view() =~= self.deep_view().fields());
        fields
    }

    /// Reads a value out of a document's fields.
    pub fn from_fields(fields: &Vec<(String, JsonValue)>) -> (value: Option<DeletePayload>)
        ensures
            value.deep_view() == DeleteModel::from_fields(fields.deep_view()),
    {
        let quest_id = match text_field(fields, "quest_id") {
            Some(v) => v,
            None => return None,
        };
        Some(DeletePayload { quest_id })
    }

    /// The JSON text of this value.
    pub fn encode(&self) -> (text: String)
        ensures
            text@ == self.deep_view().encoded(),
    {
        let fields = self.to_fields();
        render_fields(&fields).unwrap()
    }

    /// Reads a value from JSON text; nothing if the text is not a
    /// readable document.
    pub fn decode(text: &str) -> (value: Option<DeletePayload>)
        ensures
            value.deep_view() == DeleteModel::decoded(text@),
    {
        match parse_fields(text) {
            Some(fields) => Self::from_fields(&fields),
            None => None,
        }
    }
}

/// A community to register.
#[derive(Debug)]
pub struct NewCommunityPayload {
    pub community_name: String,
    pub leader_id: String,
}

/// A `NewCommunityPayload` as the contracts see it.
pub struct NewCommunityModel {
    pub community_name: Text,
    pub leader_id: Text,
}

impl DeepView for NewCommunityPayload {
    type V = NewCommunityModel;

    open spec fn deep_view(&self) -> NewCommunityModel {
        NewCommunityModel {
            community_name: self.community_name@,
            leader_id: self.leader_id@,
        }
    }
}

impl NewCommunityModel {
    /// The document of this value: its fields, in order.
    pub open spec fn fields(self) -> FieldsModel {
        seq![
            ("community_name"@, JsonModel::Text(self.community_name)),
            ("leader_id"@, JsonModel::Text(self.leader_id)),
        ]
    }

    /// Whether a document holds every field that reading needs, each of
    /// the right kind.
    pub open spec fn readable(fields: FieldsModel) -> bool {
        &&& text_at(fields, "community_name"@) is Some
        &&& text_at(fields, "leader_id"@) is Some
    }

    /// The value that a document holds, if it is readable.
    pub open spec fn from_fields(fields: FieldsModel) -> Option<NewCommunityModel> {
        if Self::readable(fields) {
            Some(
                NewCommunityModel {
                    community_name: text_at(fields, "community_name"@).unwrap(),
                    leader_id: text_at(fields, "leader_id"@).unwrap(),
                },
            )
        } else {
            None
        }
    }

    /// The JSON text of this value.
    pub open spec fn encoded(self) -> Text {
        rendered_object(self.fields())
    }

    /// The value that a JSON text holds, if the text is a readable document.
    pub open spec fn decoded(text: Text) -> Option<NewCommunityModel> {
        match parsed_object(text) {
            Some(fields) => Self::from_fields(fields),
            None => None,
        }
    }

    /// Reading back the document of a value gives the value.
    pub proof fn law_fields_round_trip(self)
        ensures
            Self::from_fields(self.fields()) == Some(self),
    {
        reveal_strlit("community_name");
        reveal_strlit("leader_id");
        let f = self.fields();
        assert("community_name"@.len() == 14 && "community_name"@[0] == 'c');
        assert("leader_id"@.len() == 9 && "leader_id"@[0] == 'l');
        lemma_lookup_first(f, "community_name"@, 0);
        lemma_lookup_first(f, "leader_id"@, 1);
    }
}

impl NewCommunityPayload {
    /// The fields of this value's document, in order.
    pub fn to_fields(&self) -> (fields: Vec<(String, JsonValue)>)
        ensures
            fields.deep_view() == self.deep_view().fields(),
            numbers_fit(fields.deep_view()),
    {
        let mut fields: Vec<(String, JsonValue)> = Vec::new();
        fields.push(("community_name".to_string(), JsonValue::Text(self.community_name.clone())));
        fields.push(("leader_id".to_string(), JsonValue::Text(self.leader_id.clone())));
        assert(fields.deep_view() =~= self.deep_view().fields());
        fields
    }

    /// Reads a value out of a document's fields.
    pub fn from_fields(fields: &Vec<(String, JsonValue)>) -> (value: Option<NewCommunityPayload>)
        ensures
            value.deep_view() == NewCommunityModel::from_fields(fields.deep_view()),
    {
        let community_name = match text_field(fields, "community_name") {
            Some(v) => v,
            None => return None,
        };
        let leader_id = match text_field(fields, "leader_id") {
            Some(v) => v,
            None => return None,
        };
        Some(NewCommunityPayload { community_name, leader_id })
    }

    /// The JSON text of this value.
    pub fn encode(&self) -> (text: String)
        ensures
            text@ == self.deep_view().encoded(),
    {
        let fields = self.to_fields();
        render_fields(&fields).unwrap()
    }

    /// Reads a value from JSON text; nothing if the text is not a
    /// readable document.
    pub fn decode(text: &str) -> (value: Option<NewCommunityPayload>)
        ensures
            value.deep_view() == NewCommunityModel::decoded(text@),
    {
        match parse_fields(text) {
            Some(fields) => Self::from_fields(&fields),
            None => None,
        }
    }
}

/// A participant's proof that a quest was completed.
#[derive(Debug)]
pub struct ProofPayload {
    pub quest_id: String,
    pub user_id: String,
    pub proof_url: String,
}

/// A `ProofPayload` as the contracts see it.
pub struct ProofModel {
    pub quest_id: Text,
    pub user_id: Text,
    pub proof_url: Text,
}

impl DeepView for ProofPayload {
    type V = ProofModel;

    open spec fn deep_view(&self) -> ProofModel {
        ProofModel {
            quest_id: self.quest_id@,
            user_id: self.user_id@,
            proof_url: self.proof_url@,
        }
    }
}

impl ProofModel {
    /// The document of this value: its fields, in order.
    pub open spec fn fields(self) -> FieldsModel {
        seq![
            ("quest_id"@, JsonModel::Text(self.quest_id)),
            ("user_id"@, JsonModel::Text(self.user_id)),
            ("proof_url"@, JsonModel::Text(self.proof_url)),
        ]
    }

    /// Whether a document holds every field that reading needs, each of
    /// the right kind.
    pub open spec fn readable(fields: FieldsModel) -> bool {
        &&& text_at(fields, "quest_id"@) is Some
        &&& text_at(fields, "user_id"@) is Some
        &&& text_at(fields, "proof_url"@) is Some
    }

    /// The value that a document holds, if it is readable.
    pub open spec fn from_fields(fields: FieldsModel) -> Option<ProofModel> {
        if Self::readable(fields) {
            Some(
                ProofModel {
                    quest_id: text_at(fields, "quest_id"@).unwrap(),
                    user_id: text_at(fields, "user_id"@).unwrap(),
                    proof_url: text_at(fields, "proof_url"@).unwrap(),
                },
            )
        } else {
            None
        }
    }

    /// The JSON text of this value.
    pub open spec fn encoded(self) -> Text {
        rendered_object(self.fields())
    }

    /// The value that a JSON text holds, if the text is a readable document.
    pub open spec fn decoded(text: Text) -> Option<ProofModel> {
        match parsed_object(text) {
            Some(fields) => Self::from_fields(fields),
            None => None,
        }
    }

    /// Reading back the document of a value gives the value.
    pub proof fn law_fields_round_trip(self)
        ensures
            Self::from_fields(self.fields()) == Some(self),
    {
        reveal_strlit("quest_id");
        reveal_strlit("user_id");
        reveal_strlit("proof_url");
        let f = self.fields();
        assert("quest_id"@.len() == 8 && "quest_id"@[0] == 'q');
        assert("user_id"@.len() == 7 && "user_id"@[0] == 'u');
        assert("proof_url"@.len() == 9 && "proof_url"@[0] == 'p');
        lemma_lookup_first(f, "quest_id"@, 0);
        lemma_lookup_first(f, "user_id"@, 1);
        lemma_lookup_first(f, "proof_url"@, 2);
    }
}

impl ProofPayload {
    /// The fields of this value's document, in order.
    pub fn to_fields(&self) -> (fields: Vec<(String, JsonValue)>)
        ensures
            fields.deep_view() == self.deep_view().fields(),
            numbers_fit(fields.deep_view()),
    {
        let mut fields: Vec<(String, JsonValue)> = Vec::new();
        fields.push(("quest_id".to_string(), JsonValue::Text(self.quest_id.clone())));
        fields.push(("user_id".to_string(), JsonValue::Text(self.user_id.clone())));
        fields.push(("proof_url".to_string(), JsonValue::Text(self.proof_url.clone())));
        assert(fields.deep_view() =~= self.deep_view().fields());
        fields
    }

    /// Reads a value out of a document's fields.
    pub fn from_fields(fields: &Vec<(String, JsonValue)>) -> (value: Option<ProofPayload>)
        ensures
            value.deep_view() == ProofModel::from_fields(fields.deep_view()),
    {
        let quest_id = match text_field(fields, "quest_id") {
            Some(v) => v,
            None => return None,
        };
        let user_id = match text_field(fields, "user_id") {
            Some(v) => v,
            None => return None,
        };
        let proof_url = match text_field(fields, "proof_url") {
            Some(v) => v,
            None => return None,
        };
        Some(ProofPayload { quest_id, user_id, proof_url })
    }

    /// The JSON text of this value.
    pub fn encode(&self) -> (text: String)
        ensures
            text@ == self.deep_view().encoded(),
    {
        let fields = self.to_fields();
        render_fields(&fields).unwrap()
    }

    /// Reads a value from JSON text; nothing if the text is not a
    /// readable document.
    pub fn decode(text: &str) -> (value: Option<ProofPayload>)
        ensures
            value.deep_view() == ProofModel::decoded(text@),
    {
        match parse_fields(text) {
            Some(fields) => Self::from_fields(&fields),
            None => None,
        }
    }
}
} // verus!
