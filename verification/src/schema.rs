//! The JSON schemas of the tools' inputs.
use vstd::prelude::*;

use serde_json::Value;

use crate::json;
use crate::json::Json;

verus! {

/// The schema of a text.
pub open spec fn text_schema(description: Seq<char>) -> Json {
    Json::object(
        seq![("type"@, Json::Text("string"@)), ("description"@, Json::Text(description))],
    )
}

/// The schema of an integer.
pub open spec fn integer_schema(description: Seq<char>) -> Json {
    Json::object(
        seq![("type"@, Json::Text("integer"@)), ("description"@, Json::Text(description))],
    )
}

/// The schema of one of a few words.
pub open spec fn word_schema(words: Seq<Seq<char>>, description: Seq<char>) -> Json {
    Json::object(
        seq![
            ("type"@, Json::Text("string"@)),
            ("enum"@, Json::texts(words)),
            ("description"@, Json::Text(description)),
        ],
    )
}

/// The schema of an object, some of whose properties are required.
pub open spec fn object_schema(
    properties: Seq<(Seq<char>, Json)>,
    required: Seq<Seq<char>>,
) -> Json {
    Json::object(
        seq![
            ("type"@, Json::Text("object"@)),
            ("properties"@, Json::object(properties)),
            ("required"@, Json::texts(required)),
        ],
    )
}

/// The schema of an object without properties.
pub open spec fn empty_schema() -> Json {
    Json::object(
        seq![("type"@, Json::Text("object"@)), ("properties"@, Json::object(Seq::empty()))],
    )
}

/// The words for the status of an item in a checklist.
pub open spec fn checklist_words() -> Seq<Seq<char>> {
    seq!["pending"@, "in_progress"@, "completed"@]
}

/// The words for the status that an item can be updated to.
pub open spec fn update_words() -> Seq<Seq<char>> {
    seq!["pending"@, "in_progress"@, "completed"@, "failed"@, "skipped"@]
}

/// Every status word that a schema offers is one that the tools understand.
pub proof fn law_offered_words_are_understood(i: int)
    ensures
        0 <= i < checklist_words().len() ==> crate::status::parsed_status(
            checklist_words()[i],
        ) is Some,
        0 <= i < update_words().len() ==> crate::status::parsed_status(update_words()[i]) is Some,
{
    crate::status::law_word_round_trip(crate::status::TodoStatus::Pending);
    crate::status::law_word_round_trip(crate::status::TodoStatus::InProgress);
    crate::status::law_word_round_trip(crate::status::TodoStatus::Completed);
    crate::status::law_word_round_trip(crate::status::TodoStatus::Failed);
    crate::status::law_word_round_trip(crate::status::TodoStatus::Skipped);
}

/// The schema of a text.
pub(crate) fn text_property(description: &str) -> (r: Value)
    ensures
        json::json_view(r) == text_schema(description@),
{
    let fields = vec![
        json::field("type", json::text("string")),
        json::field("description", json::text(description)),
    ];
    let r = json::object(fields);
    assert(json::field_views(fields@) =~= seq![
        ("type"@, Json::Text("string"@)),
        ("description"@, Json::Text(description@)),
    ]);
    r
}

/// The schema of an integer.
pub(crate) fn integer_property(description: &str) -> (r: Value)
    ensures
        json::json_view(r) == integer_schema(description@),
{
    let fields = vec![
        json::field("type", json::text("integer")),
        json::field("description", json::text(description)),
    ];
    let r = json::object(fields);
    assert(json::field_views(fields@) =~= seq![
        ("type"@, Json::Text("integer"@)),
        ("description"@, Json::Text(description@)),
    ]);
    r
}

/// The schema of one of a few words.
fn word_property(words: Vec<&str>, description: &str) -> (r: Value)
    ensures
        json::json_view(r) == word_schema(words@.map_values(|w: &str| w@), description@),
{
    let ghost views = words@.map_values(|w: &str| w@);
    let fields = vec![
        json::field("type", json::text("string")),
        json::field("enum", json::texts(words)),
        json::field("description", json::text(description)),
    ];
    let r = json::object(fields);
    assert(json::field_views(fields@) =~= seq![
        ("type"@, Json::Text("string"@)),
        ("enum"@, Json::texts(views)),
        ("description"@, Json::Text(description@)),
    ]);
    r
}

/// The schema of the status of an item in a checklist.
pub(crate) fn checklist_status_property(description: &str) -> (r: Value)
    ensures
        json::json_view(r) == word_schema(checklist_words(), description@),
{
    let words = vec!["pending", "in_progress", "completed"];
    assert(words@.map_values(|w: &str| w@) =~= checklist_words());
    word_property(words, description)
}

/// The schema of the status that an item can be updated to.
pub(crate) fn update_status_property(description: &str) -> (r: Value)
    ensures
        json::json_view(r) == word_schema(update_words(), description@),
{
    let words = vec!["pending", "in_progress", "completed", "failed", "skipped"];
    assert(words@.map_values(|w: &str| w@) =~= update_words());
    word_property(words, description)
}

/// The schema of an object with the given properties, some of them required.
pub(crate) fn object_with(properties: Vec<(String, Value)>, required: Vec<&str>) -> (r: Value)
    ensures
        json::json_view(r) == object_schema(
            json::field_views(properties@),
            required@.map_values(|w: &str| w@),
        ),
{
    let ghost property_views = json::field_views(properties@);
    let ghost names = required@.map_values(|w: &str| w@);
    let fields = vec![
        json::field("type", json::text("object")),
        json::field("properties", json::object(properties)),
        json::field("required", json::texts(required)),
    ];
    let r = json::object(fields);
    assert(json::field_views(fields@) =~= seq![
        ("type"@, Json::Text("object"@)),
        ("properties"@, Json::object(property_views)),
        ("required"@, Json::texts(names)),
    ]);
    r
}

/// The schema of an object without properties.
pub(crate) fn empty_object() -> (r: Value)
    ensures
        json::json_view(r) == empty_schema(),
{
    let none: Vec<(String, Value)> = Vec::new();
    assert(json::field_views(none@) =~= Seq::empty());
    let fields = vec![
        json::field("type", json::text("object")),
        json::field("properties", json::object(none)),
    ];
    let r = json::object(fields);
    assert(json::field_views(fields@) =~= seq![
        ("type"@, Json::Text("object"@)),
        ("properties"@, Json::object(Seq::empty())),
    ]);
    r
}

/// The schema of an array.
pub open spec fn array_schema(description: Seq<char>, items: Json) -> Json {
    Json::object(
        seq![
            ("type"@, Json::Text("array"@)),
            ("description"@, Json::Text(description)),
            ("items"@, items),
        ],
    )
}

/// The schema of an array.
pub(crate) fn array_property(description: &str, items: Value) -> (r: Value)
    ensures
        json::json_view(r) == array_schema(description@, json::json_view(items)),
{
    let ghost items_view = json::json_view(items);
    let fields = vec![
        json::field("type", json::text("array")),
        json::field("description", json::text(description)),
        json::field("items", items),
    ];
    let r = json::object(fields);
    assert(json::field_views(fields@) =~= seq![
        ("type"@, Json::Text("array"@)),
        ("description"@, Json::Text(description@)),
        ("items"@, items_view),
    ]);
    r
}

/// The schema of any integer.
pub open spec fn plain_integer_schema() -> Json {
    Json::object(seq![("type"@, Json::Text("integer"@))])
}

/// The schema of any integer.
pub(crate) fn plain_integer() -> (r: Value)
    ensures
        json::json_view(r) == plain_integer_schema(),
{
    let fields = vec![json::field("type", json::text("integer"))];
    let r = json::object(fields);
    assert(json::field_views(fields@) =~= seq![("type"@, Json::Text("integer"@))]);
    r
}

} // verus!
