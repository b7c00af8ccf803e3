//! What the tools share: the list they work on, their results and errors, and
//! the metadata they report.
use std::sync::Arc;

use vstd::prelude::*;

use serde_json::Value;

use crate::item;
use crate::item::{TodoItem, TodoItemView, TodoListSnapshot, TodoListSnapshotView};
use crate::json;
use crate::json::Json;
use crate::list::TodoList;
use crate::model::TodoListView;
use crate::status;
use crate::text::starts_with;

verus! {

/// `tokio::sync::Mutex`, the lock around a shared list.
#[verifier::external_type_specification]
#[verifier::external_body]
#[verifier::reject_recursive_types(T)]
pub struct ExMutex<T: ?Sized>(tokio::sync::Mutex<T>);

/// The list that a mutex was made with.
pub uninterp spec fn initial_list(m: tokio::sync::Mutex<TodoList>) -> TodoListView;

/// `tokio::sync::Mutex::new`: an unlocked mutex around the given list. What the
/// mutex guards later is up to those who lock it.
#[verifier::external_body]
fn new_mutex(list: TodoList) -> (r: tokio::sync::Mutex<TodoList>)
    ensures
        initial_list(r) == list@,
{
    tokio::sync::Mutex::new(list)
}

/// Shared reference to a `TodoList` for use across tools
pub type SharedTodoList = Arc<tokio::sync::Mutex<TodoList>>;

/// Create a new shared `TodoList`
pub fn new_shared_todo_list() -> (r: SharedTodoList)
    ensures
        initial_list(*r) == TodoListView::empty(),
{
    Arc::new(new_mutex(TodoList::new()))
}

/// What a tool may do.
#[derive(Debug, Clone, Copy, PartialEq, Eq, Structural)]
pub enum ToolCapability {
    ReadOnly,
    WritesFiles,
}

/// Whether a tool call needs the consent of the user.
#[derive(Debug, Clone, Copy, PartialEq, Eq, Structural)]
pub enum ApprovalRequirement {
    Auto,
}

/// Why a tool call was rejected.
#[derive(Debug)]
pub enum ToolError {
    InvalidInput { message: String },
}

impl View for ToolError {
    type V = Seq<char>;

    open spec fn view(&self) -> Seq<char> {
        match *self {
            ToolError::InvalidInput { message } => message@,
        }
    }
}

impl ToolError {
    /// The input of the call is not as it should be.
    pub fn invalid_input(message: &str) -> (r: ToolError)
        ensures
            r@ == message@,
    {
        ToolError::InvalidInput { message: message.to_owned() }
    }

    /// What is wrong.
    pub fn message(&self) -> (r: &str)
        ensures
            r@ == self@,
    {
        match self {
            ToolError::InvalidInput { message } => message.as_str(),
        }
    }
}

/// What a tool call gives back.
#[derive(Debug)]
pub struct ToolResult {
    pub success: bool,
    pub content: String,
    pub metadata: Option<Value>,
}

/// The mathematical value of a [`ToolResult`].
pub struct ToolResultView {
    pub success: bool,
    pub content: Seq<char>,
    pub metadata: Option<Json>,
}

impl View for ToolResult {
    type V = ToolResultView;

    open spec fn view(&self) -> ToolResultView {
        ToolResultView {
            success: self.success,
            content: self.content@,
            metadata: match self.metadata {
                Some(v) => Some(json::json_view(v)),
                None => None,
            },
        }
    }
}

impl ToolResult {
    /// The call did what it should.
    pub fn success(content: String) -> (r: ToolResult)
        ensures
            r@ == (ToolResultView { success: true, content: content@, metadata: None }),
    {
        ToolResult { success: true, content, metadata: None }
    }

    /// The call did what it should and answers with a JSON document, or with the
    /// empty object where it could not be written.
    pub fn document(text: Option<String>) -> (r: ToolResult)
        ensures
            r@ == (ToolResultView {
                success: true,
                content: json::text_or_empty_object(item::text_view(text)),
                metadata: None,
            }),
    {
        ToolResult::success(json::or_empty_object(text))
    }

    /// The call failed.
    pub fn error(content: String) -> (r: ToolResult)
        ensures
            r@ == (ToolResultView { success: false, content: content@, metadata: None }),
    {
        ToolResult { success: false, content, metadata: None }
    }

    /// The result with metadata.
    pub fn with_metadata(self, metadata: Value) -> (r: ToolResult)
        ensures
            r@ == (ToolResultView {
                metadata: Some(json::json_view(metadata)),
                ..self@
            }),
    {
        ToolResult { success: self.success, content: self.content, metadata: Some(metadata) }
    }
}

/// How the metadata shows an item.
pub open spec fn metadata_item(it: TodoItemView) -> Json {
    Json::object(
        seq![
            ("id"@, Json::Int(it.id as int)),
            ("content"@, Json::Text(it.content)),
            ("status"@, Json::Text(status::status_word(it.status))),
        ],
    )
}

/// The metadata that a tool reports with a snapshot of the list.
pub open spec fn metadata_of(snapshot: TodoListSnapshotView, tool_name: Seq<char>) -> Json {
    Json::object(
        seq![
            ("canonical_tool"@, Json::Text("checklist_write"@)),
            ("compat_alias"@, Json::Bool("todo_"@.is_prefix_of(tool_name))),
            (
                "task_updates"@,
                Json::object(
                    seq![
                        (
                            "checklist"@,
                            Json::object(
                                seq![
                                    (
                                        "items"@,
                                        Json::Array(
                                            snapshot.items.map_values(
                                                |it: TodoItemView| metadata_item(it),
                                            ),
                                        ),
                                    ),
                                    ("completion_pct"@, Json::Int(snapshot.completion_pct as int)),
                                    (
                                        "in_progress_id"@,
                                        Json::optional_id(snapshot.in_progress_id),
                                    ),
                                    ("updated_at"@, Json::Null),
                                ],
                            ),
                        ),
                    ],
                ),
            ),
        ],
    )
}

/// Shows an item in the metadata.
fn item_metadata(item: &TodoItem) -> (r: Value)
    ensures
        json::json_view(r) == metadata_item(item@),
{
    let fields = vec![
        json::field("id", json::number(item.id as u64)),
        json::field("content", json::text(item.content.as_str())),
        json::field("status", json::text(item.status.as_str())),
    ];
    let r = json::object(fields);
    assert(json::field_views(fields@) =~= seq![
        ("id"@, Json::Int(item.id as int)),
        ("content"@, Json::Text(item@.content)),
        ("status"@, Json::Text(status::status_word(item.status))),
    ]);
    r
}

/// The metadata that the tool `tool_name` reports with a snapshot of the list.
pub fn checklist_metadata(snapshot: &TodoListSnapshot, tool_name: &str) -> (r: Value)
    ensures
        json::json_view(r) == metadata_of(snapshot@, tool_name@),
{
    let mut items: Vec<Value> = Vec::new();
    let mut i: usize = 0;
    while i < snapshot.items.len()
        invariant
            i <= snapshot.items@.len(),
            items@.len() == i,
            forall|j: int|
                0 <= j < i ==> json::json_view(#[trigger] items@[j]) == metadata_item(
                    snapshot@.items[j],
                ),
        decreases snapshot.items@.len() - i,
    {
        assert(snapshot.items@[i as int]@ == snapshot@.items[i as int]);
        items.push(item_metadata(&snapshot.items[i]));
        i += 1;
    }
    assert(json::json_views(items@) =~= snapshot@.items.map_values(
        |it: TodoItemView| metadata_item(it),
    ));
    let checklist_fields = vec![
        json::field("items", json::array(items)),
        json::field("completion_pct", json::number(snapshot.completion_pct as u64)),
        json::field("in_progress_id", json::optional_id(snapshot.in_progress_id)),
        json::field("updated_at", json::null()),
    ];
    let checklist = json::object(checklist_fields);
    assert(json::field_views(checklist_fields@) =~= seq![
        (
            "items"@,
            Json::Array(snapshot@.items.map_values(|it: TodoItemView| metadata_item(it))),
        ),
        ("completion_pct"@, Json::Int(snapshot@.completion_pct as int)),
        ("in_progress_id"@, Json::optional_id(snapshot@.in_progress_id)),
        ("updated_at"@, Json::Null),
    ]);
    let updates_fields = vec![json::field("checklist", checklist)];
    let updates = json::object(updates_fields);
    assert(json::field_views(updates_fields@) =~= seq![
        ("checklist"@, json::json_view(checklist)),
    ]);
    let fields = vec![
        json::field("canonical_tool", json::text("checklist_write")),
        json::field("compat_alias", json::boolean(starts_with(tool_name, "todo_"))),
        json::field("task_updates", updates),
    ];
    let r = json::object(fields);
    assert(json::field_views(fields@) =~= seq![
        ("canonical_tool"@, Json::Text("checklist_write"@)),
        ("compat_alias"@, Json::Bool("todo_"@.is_prefix_of(tool_name@))),
        ("task_updates"@, json::json_view(updates)),
    ]);
    r
}

/// The metadata always names `checklist_write` as the tool to use, tells by the
/// tool's name whether it is an alias, and shows the snapshot.
pub proof fn law_metadata_shows_snapshot(snapshot: TodoListSnapshotView, tool_name: Seq<char>)
    ensures
        ({
            let metadata = metadata_of(snapshot, tool_name);
            let updates = metadata.field("task_updates"@)->0;
            let checklist = updates.field("checklist"@)->0;
            &&& metadata.text_field("canonical_tool"@) == Some("checklist_write"@)
            &&& metadata.field("compat_alias"@) == Some(
                Json::Bool("todo_"@.is_prefix_of(tool_name)),
            )
            &&& checklist.field("items"@) == Some(
                Json::Array(snapshot.items.map_values(|it: TodoItemView| metadata_item(it))),
            )
            &&& checklist.field("completion_pct"@) == Some(
                Json::Int(snapshot.completion_pct as int),
            )
            &&& checklist.field("in_progress_id"@) == Some(
                Json::optional_id(snapshot.in_progress_id),
            )
            &&& checklist.field("updated_at"@) == Some(Json::Null)
        }),
{
    reveal_with_fuel(json::fields_map, 5);
    reveal_strlit("canonical_tool");
    reveal_strlit("compat_alias");
    reveal_strlit("task_updates");
    reveal_strlit("checklist");
    reveal_strlit("items");
    reveal_strlit("completion_pct");
    reveal_strlit("in_progress_id");
    reveal_strlit("updated_at");
    assert("canonical_tool"@[1] == 'a');
    assert("compat_alias"@[1] == 'o');
    assert("task_updates"@[0] == 't');
    assert("completion_pct"@.len() == 14);
    assert("in_progress_id"@[0] == 'i');
    assert("completion_pct"@[0] == 'c');
    assert("items"@.len() == 5);
    assert("updated_at"@.len() == 10);
}

} // verus!
