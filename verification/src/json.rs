//! JSON objects as the codec sees them: a list of named fields.
//!
//! `serde_json` reads and writes the text. The ledger's documents are flat
//! objects whose fields are strings, integers, `null`, or tables of strings,
//! so a document is held here as its fields in order, and everything built on
//! top of it works on that list.

use vstd::prelude::*;
use crate::rows::copy_table;
use crate::text::{same_text, Text};

verus! {

/// The value of one field of a document.
#[derive(Debug)]
pub enum JsonValue {
    /// `null`.
    Null,
    /// A string.
    Text(String),
    /// An integer.
    Number(i128),
    /// An array of arrays of strings.
    Table(Vec<Vec<String>>),
    /// Any other value; written out as `null`.
    Other,
}

/// A field value as the contracts see it.
pub enum JsonModel {
    Null,
    Text(Text),
    Number(int),
    Table(Seq<Seq<Text>>),
    Other,
}

/// The fields of a document, in order, as the contracts see them.
pub type FieldsModel = Seq<(Text, JsonModel)>;

impl DeepView for JsonValue {
    type V = JsonModel;

    open spec fn deep_view(&self) -> JsonModel {
        match self {
            JsonValue::Null => JsonModel::Null,
            JsonValue::Text(s) => JsonModel::Text(s@),
            JsonValue::Number(n) => JsonModel::Number(*n as int),
            JsonValue::Table(t) => JsonModel::Table(t.deep_view()),
            JsonValue::Other => JsonModel::Other,
        }
    }
}

/// The fields of the JSON object that `text` spells, in the order in which
/// they first appear, or nothing when `text` is not a JSON object.
pub uninterp spec fn parsed_object(text: Text) -> Option<FieldsModel>;

/// The JSON text of the object with the given fields, in the given order.
pub uninterp spec fn rendered_object(fields: FieldsModel) -> Text;

/// Whether every number among the fields can be written as a JSON integer.
pub open spec fn numbers_fit(fields: FieldsModel) -> bool {
    forall|i: int|
        0 <= i < fields.len() ==> match (#[trigger] fields[i]).1 {
            JsonModel::Number(n) => i64::MIN <= n <= u64::MAX,
            _ => true,
        }
}

/// The value of the first field called `key`.
pub open spec fn lookup(fields: FieldsModel, key: Text) -> Option<JsonModel>
    decreases fields.len(),
{
    if fields.len() == 0 {
        None
    } else if fields[0].0 == key {
        Some(fields[0].1)
    } else {
        lookup(fields.drop_first(), key)
    }
}

/// If `key` names the field at `at` and no earlier field, looking `key` up
/// gives that field's value.
pub proof fn lemma_lookup_first(fields: FieldsModel, key: Text, at: int)
    requires
        0 <= at < fields.len(),
        fields[at].0 == key,
        forall|j: int| 0 <= j < at ==> (#[trigger] fields[j]).0 != key,
    ensures
        lookup(fields, key) == Some(fields[at].1),
    decreases at,
{
    if at > 0 {
        let rest = fields.drop_first();
        assert(fields[0].0 != key);
        assert forall|j: int| 0 <= j < at - 1 implies (#[trigger] rest[j]).0 != key by {
            assert(rest[j] == fields[j + 1]);
        }
        lemma_lookup_first(rest, key, at - 1);
    }
}

/// The string held by the field `key`; nothing if the field is missing or
/// holds something else.
pub open spec fn text_at(fields: FieldsModel, key: Text) -> Option<Text> {
    match lookup(fields, key) {
        Some(JsonModel::Text(t)) => Some(t),
        _ => None,
    }
}

/// The `i8` held by the field `key`; nothing if the field is missing, is not
/// an integer, or does not fit.
pub open spec fn i8_at(fields: FieldsModel, key: Text) -> Option<i8> {
    match lookup(fields, key) {
        Some(JsonModel::Number(n)) => if i8::MIN <= n <= i8::MAX {
            Some(n as i8)
        } else {
            None
        },
        _ => None,
    }
}

/// The table held by the field `key`; nothing if the field is missing or
/// holds something else.
pub open spec fn table_at(fields: FieldsModel, key: Text) -> Option<Seq<Seq<Text>>> {
    match lookup(fields, key) {
        Some(JsonModel::Table(t)) => Some(t),
        _ => None,
    }
}

/// The optional `u64` held by the field `key`: a missing field and `null`
/// both stand for no value; anything but an integer in range is an error.
pub open spec fn optional_u64_at(fields: FieldsModel, key: Text) -> Option<Option<u64>> {
    match lookup(fields, key) {
        None => Some(None),
        Some(JsonModel::Null) => Some(None),
        Some(JsonModel::Number(n)) => if 0 <= n <= u64::MAX {
            Some(Some(n as u64))
        } else {
            None
        },
        _ => None,
    }
}

/// The field value of an optional number: the number, or `null`.
pub open spec fn optional_number(value: Option<u64>) -> JsonModel {
    match value {
        Some(n) => JsonModel::Number(n as int),
        None => JsonModel::Null,
    }
}

/// `serde_json::from_str` reads the text as a map of values; each value is
/// handed out as the field value of the same shape.
#[verifier::external_body]
pub(crate) fn read_object(text: &str) -> (fields: Option<Vec<(String, JsonValue)>>)
    ensures
        fields.deep_view() == parsed_object(text@),
{
    let doc: serde_json::Map<String, serde_json::Value> = serde_json::from_str(text).ok()?;
    Some(doc.into_iter().map(|(key, value)| (key, match value {
        serde_json::Value::Null => JsonValue::Null,
        serde_json::Value::String(s) => JsonValue::Text(s),
        serde_json::Value::Number(n) => n.as_i128().map_or(JsonValue::Other, JsonValue::Number),
        other => serde_json::from_value(other).map_or(JsonValue::Other, JsonValue::Table),
    })).collect())
}

/// `serde_json::to_string` writes a map of values as JSON text; the map is
/// filled from the fields in order, each as the value of the same shape.
/// Writing fails only where a value's own writing fails or a key is no
/// string; a map from strings to values of these shapes has neither.
#[verifier::external_body]
pub(crate) fn write_object(fields: &Vec<(String, JsonValue)>) -> (text: Option<String>)
    requires
        numbers_fit(fields.deep_view()),
    ensures
        text is Some,
        text.unwrap()@ == rendered_object(fields.deep_view()),
{
    let doc: serde_json::Map<String, serde_json::Value> = fields.iter().map(|(key, value)| (key.clone(), match value {
        JsonValue::Text(s) => serde_json::Value::String(s.clone()),
        JsonValue::Number(n) => serde_json::Number::from_i128(*n).map_or(serde_json::Value::Null, serde_json::Value::Number),
        JsonValue::Table(t) => serde_json::to_value(t).unwrap_or_default(),
        JsonValue::Null | JsonValue::Other => serde_json::Value::Null,
    })).collect();
    serde_json::to_string(&doc).ok()
}

/// Reads `text` as a JSON object and returns its fields.
pub fn parse_fields(text: &str) -> (fields: Option<Vec<(String, JsonValue)>>)
    ensures
        fields.deep_view() == parsed_object(text@),
{
    read_object(text)
}

/// Writes the fields out as the text of one JSON object.
///
/// Fails exactly when a number lies outside the range of JSON integers;
/// such fields are refused before writing.
pub fn render_fields(fields: &Vec<(String, JsonValue)>) -> (text: Option<String>)
    ensures
        text is Some <==> numbers_fit(fields.deep_view()),
        text is Some ==> text.unwrap()@ == rendered_object(fields.deep_view()),
{
    let mut i: usize = 0;
    while i < fields.len()
        invariant
            i <= fields.len(),
            forall|j: int|
                0 <= j < i ==> match (#[trigger] fields.deep_view()[j]).1 {
                    JsonModel::Number(n) => i64::MIN <= n <= u64::MAX,
                    _ => true,
                },
        decreases fields.len() - i,
    {
        match &fields[i].1 {
            JsonValue::Number(n) => {
                if *n < -9223372036854775808i128 || *n > 18446744073709551615i128 {
                    assert(fields.deep_view()[i as int].1 == JsonModel::Number(*n as int));
                    return None;
                }
            },
            _ => {},
        }
        i += 1;
    }
    write_object(fields)
}

/// Finds the value of the first field called `key`.
pub fn find_field<'a>(fields: &'a Vec<(String, JsonValue)>, key: &str) -> (found: Option<
    &'a JsonValue,
>)
    ensures
        found.deep_view() == lookup(fields.deep_view(), key@),
{
    let ghost all = fields.deep_view();
    let mut i: usize = 0;
    assert(all.skip(0) =~= all);
    while i < fields.len()
        invariant
            i <= fields.len(),
            all == fields.deep_view(),
            lookup(all, key@) == lookup(all.skip(i as int), key@),
        decreases fields.len() - i,
    {
        proof {
            assert(all.skip(i as int).drop_first() =~= all.skip(i as int + 1));
            assert(all.skip(i as int)[0] == all[i as int]);
        }
        if same_text(fields[i].0.as_str(), key) {
            return Some(&fields[i].1);
        }
        i += 1;
    }
    None
}

/// The field value of an optional number: the number, or `null`.
pub fn optional_number_value(value: Option<u64>) -> (field: JsonValue)
    ensures
        field.deep_view() == optional_number(value),
{
    match value {
        Some(n) => JsonValue::Number(n as i128),
        None => JsonValue::Null,
    }
}

/// The string held by the field `key`.
pub fn text_field(fields: &Vec<(String, JsonValue)>, key: &str) -> (value: Option<String>)
    ensures
        value.deep_view() == text_at(fields.deep_view(), key@),
{
    match find_field(fields, key) {
        Some(JsonValue::Text(s)) => Some(s.clone()),
        _ => None,
    }
}

/// The `i8` held by the field `key`.
pub fn i8_field(fields: &Vec<(String, JsonValue)>, key: &str) -> (value: Option<i8>)
    ensures
        value == i8_at(fields.deep_view(), key@),
{
    match find_field(fields, key) {
        Some(JsonValue::Number(n)) => {
            if -128 <= *n && *n <= 127 {
                Some(*n as i8)
            } else {
                None
            }
        },
        _ => None,
    }
}

/// The table of strings held by the field `key`.
pub fn table_field(fields: &Vec<(String, JsonValue)>, key: &str) -> (value: Option<
    Vec<Vec<String>>,
>)
    ensures
        value.deep_view() == table_at(fields.deep_view(), key@),
{
    match find_field(fields, key) {
        Some(JsonValue::Table(t)) => Some(copy_table(t)),
        _ => None,
    }
}

/// The optional `u64` held by the field `key`.
pub fn optional_u64_field(fields: &Vec<(String, JsonValue)>, key: &str) -> (value: Option<
    Option<u64>,
>)
    ensures
        value == optional_u64_at(fields.deep_view(), key@),
{
    match find_field(fields, key) {
        None => Some(None),
        Some(JsonValue::Null) => Some(None),
        Some(JsonValue::Number(n)) => {
            if 0 <= *n && *n <= 18446744073709551615i128 {
                Some(Some(*n as u64))
            } else {
                None
            }
        },
        _ => None,
    }
}

} // verus!
