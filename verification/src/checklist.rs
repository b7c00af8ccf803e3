//! The checklist tools: add an item, update one, list them, write them all.
use vstd::prelude::*;
use vstd::string::*;

use serde_json::Value;

use crate::clock::Timestamp;
use crate::graph;
use crate::item;
use crate::item::{TodoItem, TodoListSnapshot, TodoListSnapshotView};
use crate::json;
use crate::json::Json;
use crate::laws;
use crate::list::TodoList;
use crate::model::{DagTimes, TodoListView};
use crate::schema;
use crate::status;
use crate::status::TodoStatus;
use crate::text;
use crate::text::{decimal_text, same_text};
use crate::tool;
use crate::tool::{
    checklist_metadata, ApprovalRequirement, SharedTodoList, ToolCapability, ToolError, ToolResult,
    ToolResultView,
};

verus! {

/// The status that a text in a tool's input asks for; pending where it names
/// none.
pub open spec fn requested_status(word: Option<Seq<char>>) -> TodoStatus {
    match word {
        Some(w) => match status::parsed_status(w) {
            Some(s) => s,
            None => TodoStatus::Pending,
        },
        None => TodoStatus::Pending,
    }
}

/// Reads the status that a text asks for; pending where it names none.
fn status_or_pending(word: Option<&str>) -> (r: TodoStatus)
    ensures
        r == requested_status(
            match word {
                Some(w) => Some(w@),
                None => None,
            },
        ),
{
    match word {
        Some(w) => match TodoStatus::from_str(w) {
            Some(s) => s,
            None => TodoStatus::Pending,
        },
        None => TodoStatus::Pending,
    }
}

/// What a snapshot comes to: how many items and how much is done.
pub open spec fn summary(opening: Seq<char>, snapshot: TodoListSnapshotView) -> Seq<char> {
    opening + text::decimal(snapshot.items.len()) + " items, "@ + text::decimal(
        snapshot.completion_pct,
    ) + "% complete)\n"@
}

/// Writes what a snapshot comes to.
fn write_summary(opening: &str, snapshot: &TodoListSnapshot) -> (r: String)
    ensures
        r@ == summary(opening@, snapshot@),
{
    let mut r = String::from_str(opening);
    r.append(decimal_text(snapshot.items.len() as u64).as_str());
    r.append(" items, ");
    r.append(decimal_text(snapshot.completion_pct as u64).as_str());
    r.append("% complete)\n");
    r
}

/// Tool for adding a single todo item.
pub struct TodoAddTool {
    todo_list: SharedTodoList,
    tool_name: &'static str,
}

/// A call of the add tool.
#[derive(Debug)]
pub struct AddRequest {
    pub content: String,
    pub status: TodoStatus,
}

impl TodoAddTool {
    /// The name that the tool goes by.
    pub closed spec fn called(&self) -> Seq<char> {
        self.tool_name@
    }

    /// The list that the tool works on.
    pub closed spec fn shared(&self) -> SharedTodoList {
        self.todo_list
    }

    /// The tool under its name for compatibility.
    pub fn new(todo_list: SharedTodoList) -> (r: Self)
        ensures
            r.called() == "todo_add"@,
            r.shared() == todo_list,
    {
        TodoAddTool { todo_list, tool_name: "todo_add" }
    }

    /// The tool under its own name.
    pub fn checklist(todo_list: SharedTodoList) -> (r: Self)
        ensures
            r.called() == "checklist_add"@,
            r.shared() == todo_list,
    {
        TodoAddTool { todo_list, tool_name: "checklist_add" }
    }

    /// The list that the tool works on.
    pub fn todo_list(&self) -> (r: &SharedTodoList)
        ensures
            *r == self.shared(),
    {
        &self.todo_list
    }

    /// The name by which agents call the tool.
    pub fn name(&self) -> (r: &'static str)
        ensures
            r@ == self.called(),
    {
        self.tool_name
    }

    /// What agents are told of the tool.
    pub fn description(&self) -> (r: &'static str)
        ensures
            r@ == if self.called() == "todo_add"@ {
                "Compatibility alias for checklist_add. Adds one checklist item on the active thread/task."@
            } else {
                "Add one checklist item on the active thread/task. Durable tasks persist this checklist as subordinate work progress."@
            },
    {
        if same_text(self.tool_name, "todo_add") {
            "Compatibility alias for checklist_add. Adds one checklist item on the active thread/task."
        } else {
            "Add one checklist item on the active thread/task. Durable tasks persist this checklist as subordinate work progress."
        }
    }

    /// The JSON schema of the input.
    pub fn input_schema(&self) -> (r: Value)
        ensures
            json::json_view(r) == schema::object_schema(
                seq![
                    ("content"@, schema::text_schema("The task description"@)),
                    (
                        "status"@,
                        schema::word_schema(
                            schema::checklist_words(),
                            "Task status (default: pending)"@,
                        ),
                    ),
                ],
                seq!["content"@],
            ),
    {
        let properties = vec![
            json::field("content", schema::text_property("The task description")),
            json::field(
                "status",
                schema::checklist_status_property("Task status (default: pending)"),
            ),
        ];
        let required = vec!["content"];
        assert(json::field_views(properties@) =~= seq![
            ("content"@, schema::text_schema("The task description"@)),
            (
                "status"@,
                schema::word_schema(schema::checklist_words(), "Task status (default: pending)"@),
            ),
        ]);
        assert(required@.map_values(|w: &str| w@) =~= seq!["content"@]);
        schema::object_with(properties, required)
    }

    /// What the tool may do.
    pub fn capabilities(&self) -> (r: Vec<ToolCapability>)
        ensures
            r@ == seq![ToolCapability::WritesFiles],
    {
        vec![ToolCapability::WritesFiles]
    }

    /// Calls need no consent.
    pub fn approval_requirement(&self) -> (r: ApprovalRequirement)
        ensures
            r == ApprovalRequirement::Auto,
    {
        ApprovalRequirement::Auto
    }

    /// Reads the input of a call.
    pub fn parse(input: &Value) -> (r: Result<AddRequest, ToolError>)
        ensures
            match json::json_view(*input).text_field("content"@) {
                Some(content) => r matches Ok(request) && request.content@ == content
                    && request.status == requested_status(
                    json::json_view(*input).text_field("status"@),
                ),
                None => r matches Err(e) && e@ == "Missing 'content'"@,
            },
    {
        match json::get_text(input, "content") {
            Some(content) => {
                let status = status_or_pending(json::get_text(input, "status"));
                Ok(AddRequest { content: content.to_owned(), status })
            },
            None => Err(ToolError::invalid_input("Missing 'content'")),
        }
    }

    /// Adds the item to the list. Gives the item and a snapshot of the list.
    pub fn apply(request: AddRequest, list: &mut TodoList) -> (r: (TodoItem, TodoListSnapshot))
        requires
            old(list).wf(),
            old(list)@.has_room(),
        ensures
            exists|at: Timestamp|
                at.valid() && final(list)@ == #[trigger] old(list)@.added(
                    request.content@,
                    request.status,
                    at,
                ),
            r.0@ == final(list)@.items.last(),
            r.1@ == final(list)@.snapshot(),
            final(list).wf(),
    {
        let item = list.add(request.content, request.status);
        (item, list.snapshot())
    }

    /// Reports the item that was added, with the snapshot as it was serialized.
    pub fn report(
        &self,
        item: &TodoItem,
        snapshot: &TodoListSnapshot,
        json: Option<String>,
    ) -> (r: ToolResult)
        ensures
            r@ == (ToolResultView {
                success: true,
                content: "Added todo #"@ + text::decimal(item@.id as nat) + " ("@
                    + status::status_word(item@.status) + ")\n"@ + json::text_or_empty_object(
                    item::text_view(json),
                ),
                metadata: Some(tool::metadata_of(snapshot@, self.called())),
            }),
    {
        let mut content = String::from_str("Added todo #");
        content.append(decimal_text(item.id as u64).as_str());
        content.append(" (");
        content.append(item.status.as_str());
        content.append(")\n");
        content.append(json::or_empty_object(json).as_str());
        ToolResult::success(content).with_metadata(checklist_metadata(snapshot, self.tool_name))
    }
}

/// Tool for updating a todo item's status.
pub struct TodoUpdateTool {
    todo_list: SharedTodoList,
    tool_name: &'static str,
}

/// A call of the update tool.
#[derive(Debug)]
pub struct UpdateRequest {
    pub id: u32,
    pub status: TodoStatus,
}

impl TodoListView {
    /// The list after an update of item `id`: what a worker reports goes through
    /// the dependencies, the rest sets the status alone.
    pub open spec fn tool_updated(
        self,
        id: u32,
        status: TodoStatus,
        times: DagTimes,
    ) -> TodoListView {
        if status == TodoStatus::Pending || status == TodoStatus::Ready {
            self.status_updated(id, status)
        } else {
            self.dag_updated(id, status, None, None, times)
        }
    }
}

impl TodoUpdateTool {
    /// The name that the tool goes by.
    pub closed spec fn called(&self) -> Seq<char> {
        self.tool_name@
    }

    /// The list that the tool works on.
    pub closed spec fn shared(&self) -> SharedTodoList {
        self.todo_list
    }

    /// The tool under its name for compatibility.
    pub fn new(todo_list: SharedTodoList) -> (r: Self)
        ensures
            r.called() == "todo_update"@,
            r.shared() == todo_list,
    {
        TodoUpdateTool { todo_list, tool_name: "todo_update" }
    }

    /// The tool under its own name.
    pub fn checklist(todo_list: SharedTodoList) -> (r: Self)
        ensures
            r.called() == "checklist_update"@,
            r.shared() == todo_list,
    {
        TodoUpdateTool { todo_list, tool_name: "checklist_update" }
    }

    /// The list that the tool works on.
    pub fn todo_list(&self) -> (r: &SharedTodoList)
        ensures
            *r == self.shared(),
    {
        &self.todo_list
    }

    /// The name by which agents call the tool.
    pub fn name(&self) -> (r: &'static str)
        ensures
            r@ == self.called(),
    {
        self.tool_name
    }

    /// What agents are told of the tool.
    pub fn description(&self) -> (r: &'static str)
        ensures
            r@ == if self.called() == "todo_update"@ {
                "Compatibility alias for checklist_update. Updates one checklist item by id on the active thread/task."@
            } else {
                "Update one checklist item's status by id on the active thread/task."@
            },
    {
        if same_text(self.tool_name, "todo_update") {
            "Compatibility alias for checklist_update. Updates one checklist item by id on the active thread/task."
        } else {
            "Update one checklist item's status by id on the active thread/task."
        }
    }

    /// The JSON schema of the input.
    pub fn input_schema(&self) -> (r: Value)
        ensures
            json::json_view(r) == schema::object_schema(
                seq![
                    ("id"@, schema::integer_schema("Todo item id"@)),
                    ("status"@, schema::word_schema(schema::update_words(), "New status"@)),
                ],
                seq!["id"@, "status"@],
            ),
    {
        let properties = vec![
            json::field("id", schema::integer_property("Todo item id")),
            json::field("status", schema::update_status_property("New status")),
        ];
        let required = vec!["id", "status"];
        assert(json::field_views(properties@) =~= seq![
            ("id"@, schema::integer_schema("Todo item id"@)),
            ("status"@, schema::word_schema(schema::update_words(), "New status"@)),
        ]);
        assert(required@.map_values(|w: &str| w@) =~= seq!["id"@, "status"@]);
        schema::object_with(properties, required)
    }

    /// What the tool may do.
    pub fn capabilities(&self) -> (r: Vec<ToolCapability>)
        ensures
            r@ == seq![ToolCapability::WritesFiles],
    {
        vec![ToolCapability::WritesFiles]
    }

    /// Calls need no consent.
    pub fn approval_requirement(&self) -> (r: ApprovalRequirement)
        ensures
            r == ApprovalRequirement::Auto,
    {
        ApprovalRequirement::Auto
    }

    /// Reads the input of a call.
    pub fn parse(input: &Value) -> (r: Result<UpdateRequest, ToolError>)
        ensures
            match json::json_view(*input).id_field("id"@) {
                Some(id) => match requested_update(json::json_view(*input)) {
                    Some(status) => r matches Ok(request) && request.id == id && request.status
                        == status,
                    None => r matches Err(e) && e@ == "Missing or invalid 'status'"@,
                },
                None => r matches Err(e) && e@ == "Missing or invalid 'id'"@,
            },
    {
        match json::get_id(input, "id") {
            Some(id) => match json::get_text(input, "status") {
                Some(word) => match TodoStatus::from_str(word) {
                    Some(status) => Ok(UpdateRequest { id, status }),
                    None => Err(ToolError::invalid_input("Missing or invalid 'status'")),
                },
                None => Err(ToolError::invalid_input("Missing or invalid 'status'")),
            },
            None => Err(ToolError::invalid_input("Missing or invalid 'id'")),
        }
    }

    /// Updates the list. Tells whether there is such an item and gives a snapshot
    /// of the list.
    pub fn apply(request: &UpdateRequest, list: &mut TodoList) -> (r: (bool, TodoListSnapshot))
        requires
            old(list).wf(),
        ensures
            exists|times: DagTimes|
                times.valid(old(list)@.items.len()) && final(list)@ == #[trigger] old(
                    list,
                )@.tool_updated(request.id, request.status, times),
            r.0 == graph::has_id(old(list)@.items, request.id),
            r.1@ == final(list)@.snapshot(),
            final(list).wf(),
    {
        let ghost before = list@;
        match request.status {
            TodoStatus::Completed
            | TodoStatus::Failed
            | TodoStatus::Skipped
            | TodoStatus::InProgress => {
                list.update_dag_status(request.id, request.status, None, None);
                proof {
                    let times = choose|times: DagTimes|
                        times.valid(before.items.len()) && list@ == #[trigger] before.dag_updated(
                            request.id,
                            request.status,
                            None,
                            None,
                            times,
                        );
                    assert(list@ == before.tool_updated(request.id, request.status, times));
                }
            },
            _ => {
                list.update_status(request.id, request.status);
                proof {
                    let at = Timestamp { seconds: 0, nanos: 0 };
                    let times = DagTimes {
                        beat: at,
                        stamp: at,
                        skips: Seq::new(before.items.len(), |j: int| at),
                    };
                    assert(times.valid(before.items.len()));
                    assert(list@ == before.tool_updated(request.id, request.status, times));
                }
            },
        }
        let found = graph::find_item(list.items(), request.id).is_some();
        proof {
            laws::lemma_same_ids(before, list@, request.id);
        }
        (found, list.snapshot())
    }

    /// Reports the update, with the snapshot as it was serialized.
    pub fn report(
        &self,
        request: &UpdateRequest,
        found: bool,
        snapshot: &TodoListSnapshot,
        json: Option<String>,
    ) -> (r: ToolResult)
        ensures
            r@ == if found {
                ToolResultView {
                    success: true,
                    content: "Updated todo #"@ + text::decimal(request.id as nat) + " to "@
                        + status::status_word(request.status) + "\n"@
                        + json::text_or_empty_object(item::text_view(json)),
                    metadata: Some(tool::metadata_of(snapshot@, self.called())),
                }
            } else {
                ToolResultView {
                    success: false,
                    content: "Todo id "@ + text::decimal(request.id as nat) + " not found"@,
                    metadata: None,
                }
            },
    {
        if found {
            let mut content = String::from_str("Updated todo #");
            content.append(decimal_text(request.id as u64).as_str());
            content.append(" to ");
            content.append(request.status.as_str());
            content.append("\n");
            content.append(json::or_empty_object(json).as_str());
            ToolResult::success(content).with_metadata(
                checklist_metadata(snapshot, self.tool_name),
            )
        } else {
            let mut content = String::from_str("Todo id ");
            content.append(decimal_text(request.id as u64).as_str());
            content.append(" not found");
            ToolResult::error(content)
        }
    }
}

/// The status that the input of an update names.
pub open spec fn requested_update(input: Json) -> Option<TodoStatus> {
    match input.text_field("status"@) {
        Some(word) => status::parsed_status(word),
        None => None,
    }
}

/// Tool for listing current todos.
pub struct TodoListTool {
    todo_list: SharedTodoList,
    tool_name: &'static str,
}

impl TodoListTool {
    /// The name that the tool goes by.
    pub closed spec fn called(&self) -> Seq<char> {
        self.tool_name@
    }

    /// The list that the tool works on.
    pub closed spec fn shared(&self) -> SharedTodoList {
        self.todo_list
    }

    /// The tool under its name for compatibility.
    pub fn new(todo_list: SharedTodoList) -> (r: Self)
        ensures
            r.called() == "todo_list"@,
            r.shared() == todo_list,
    {
        TodoListTool { todo_list, tool_name: "todo_list" }
    }

    /// The tool under its own name.
    pub fn checklist(todo_list: SharedTodoList) -> (r: Self)
        ensures
            r.called() == "checklist_list"@,
            r.shared() == todo_list,
    {
        TodoListTool { todo_list, tool_name: "checklist_list" }
    }

    /// The list that the tool works on.
    pub fn todo_list(&self) -> (r: &SharedTodoList)
        ensures
            *r == self.shared(),
    {
        &self.todo_list
    }

    /// The name by which agents call the tool.
    pub fn name(&self) -> (r: &'static str)
        ensures
            r@ == self.called(),
    {
        self.tool_name
    }

    /// What agents are told of the tool.
    pub fn description(&self) -> (r: &'static str)
        ensures
            r@ == if self.called() == "todo_list"@ {
                "Compatibility alias for checklist_list. Lists current checklist progress."@
            } else {
                "List current checklist progress for the active thread/task."@
            },
    {
        if same_text(self.tool_name, "todo_list") {
            "Compatibility alias for checklist_list. Lists current checklist progress."
        } else {
            "List current checklist progress for the active thread/task."
        }
    }

    /// The JSON schema of the input.
    pub fn input_schema(&self) -> (r: Value)
        ensures
            json::json_view(r) == schema::empty_schema(),
    {
        schema::empty_object()
    }

    /// What the tool may do.
    pub fn capabilities(&self) -> (r: Vec<ToolCapability>)
        ensures
            r@ == seq![ToolCapability::ReadOnly],
    {
        vec![ToolCapability::ReadOnly]
    }

    /// Calls need no consent.
    pub fn approval_requirement(&self) -> (r: ApprovalRequirement)
        ensures
            r == ApprovalRequirement::Auto,
    {
        ApprovalRequirement::Auto
    }

    /// Reports the list, with its snapshot as it was serialized.
    pub fn report(snapshot: &TodoListSnapshot, json: Option<String>) -> (r: ToolResult)
        ensures
            r@ == (ToolResultView {
                success: true,
                content: summary("Todo list ("@, snapshot@) + json::text_or_empty_object(
                    item::text_view(json),
                ),
                metadata: None,
            }),
    {
        let mut content = write_summary("Todo list (", snapshot);
        content.append(json::or_empty_object(json).as_str());
        ToolResult::success(content)
    }
}

/// Tool for writing and updating the todo list
pub struct TodoWriteTool {
    todo_list: SharedTodoList,
    tool_name: &'static str,
}

/// How many of the todos come before the first one without content.
pub open spec fn usable(todos: Seq<Json>) -> nat
    decreases todos.len(),
{
    if todos.len() == 0 || todos.first().text_field("content"@) is None {
        0
    } else {
        1 + usable(todos.drop_first())
    }
}

/// The list that is written by adding the first `n` todos one after another, each
/// at its time.
pub open spec fn written(todos: Seq<Json>, n: nat, times: Seq<Timestamp>) -> TodoListView
    decreases n,
{
    if n == 0 {
        TodoListView::empty()
    } else {
        let todo = todos[n - 1];
        written(todos, (n - 1) as nat, times).added(
            todo.text_field("content"@)->0,
            requested_status(todo.text_field("status"@)),
            times[n - 1],
        )
    }
}

/// The times of the first `n` todos alone decide.
proof fn lemma_written_prefix(
    todos: Seq<Json>,
    n: nat,
    times: Seq<Timestamp>,
    more: Seq<Timestamp>,
)
    requires
        n <= times.len(),
        times.is_prefix_of(more),
    ensures
        written(todos, n, times) == written(todos, n, more),
    decreases n,
{
    if n > 0 {
        lemma_written_prefix(todos, (n - 1) as nat, times, more);
    }
}

/// A run of todos with content is usable.
proof fn lemma_usable(todos: Seq<Json>, n: int)
    requires
        0 <= n <= todos.len(),
        forall|i: int| 0 <= i < n ==> (#[trigger] todos[i]).text_field("content"@) is Some,
        n == todos.len() || todos[n].text_field("content"@) is None,
    ensures
        usable(todos) == n,
    decreases n,
{
    if n > 0 {
        assert(todos[0].text_field("content"@) is Some);
        let rest = todos.drop_first();
        assert forall|i: int| 0 <= i < n - 1 implies (#[trigger] rest[i]).text_field(
            "content"@,
        ) is Some by {
            assert(rest[i] == todos[i + 1]);
        }
        lemma_usable(rest, n - 1);
    }
}

/// The `i`th todo is to be in progress.
pub open spec fn asks_progress(todos: Seq<Json>, i: int) -> bool {
    requested_status(todos[i].text_field("status"@)) == TodoStatus::InProgress
}

/// Writing a list replaces what was there: the items are the todos, in their
/// order, numbered from 1, with the statuses that they ask for, but that of several
/// in progress only the last one is.
pub proof fn law_written_list(todos: Seq<Json>, n: nat, times: Seq<Timestamp>)
    requires
        n < u32::MAX,
    ensures
        written(todos, n, times).items.len() == n,
        written(todos, n, times).next_id == n + 1,
        forall|i: int|
            0 <= i < n ==> {
                let it = #[trigger] written(todos, n, times).items[i];
                &&& it.id == i + 1
                &&& it.content == todos[i].text_field("content"@)->0
                &&& it.depends_on.len() == 0
                &&& it.created_at == Some(times[i])
                &&& it.started_at is None
                &&& it.completed_at is None
                &&& it.heartbeat is None
                &&& it.result is None
                &&& it.error is None
                &&& it.restart_count == 0
                &&& it.status == if asks_progress(todos, i) && exists|j: int|
                    i < j < n && #[trigger] asks_progress(todos, j) {
                    TodoStatus::Pending
                } else {
                    requested_status(todos[i].text_field("status"@))
                }
            },
        laws::single_in_progress(written(todos, n, times)),
    decreases n,
{
    if n > 0 {
        law_written_list(todos, (n - 1) as nat, times);
        let before = written(todos, (n - 1) as nat, times);
        let after = written(todos, n, times);
        assert forall|i: int| 0 <= i < n implies (#[trigger] after.items[i]).status == if asks_progress(
            todos,
            i,
        ) && exists|j: int| i < j < n && #[trigger] asks_progress(todos, j) {
            TodoStatus::Pending
        } else {
            requested_status(todos[i].text_field("status"@))
        } by {
            let late = exists|j: int| i < j < n && #[trigger] asks_progress(todos, j);
            let early = exists|j: int| i < j < n - 1 && #[trigger] asks_progress(todos, j);
            if i < n - 1 {
                assert(late == (early || asks_progress(todos, n - 1)));
                assert(before.items[i].id == i + 1);
            }
        }
        assert forall|i: int, j: int|
            0 <= i < after.items.len() && 0 <= j < after.items.len() && (
            #[trigger] after.items[i]).status == TodoStatus::InProgress && (
            #[trigger] after.items[j]).status == TodoStatus::InProgress implies i == j by {
            if i < n - 1 && j < n - 1 {
                assert(before.items[i].status == TodoStatus::InProgress
                    || after.items[i].status != TodoStatus::InProgress);
                assert(before.items[j].status == TodoStatus::InProgress
                    || after.items[j].status != TodoStatus::InProgress);
            }
        }
    }
}

impl TodoWriteTool {
    /// The name that the tool goes by.
    pub closed spec fn called(&self) -> Seq<char> {
        self.tool_name@
    }

    /// The list that the tool works on.
    pub closed spec fn shared(&self) -> SharedTodoList {
        self.todo_list
    }

    /// The tool under its name for compatibility.
    pub fn new(todo_list: SharedTodoList) -> (r: Self)
        ensures
            r.called() == "todo_write"@,
            r.shared() == todo_list,
    {
        TodoWriteTool { todo_list, tool_name: "todo_write" }
    }

    /// The tool under its own name.
    pub fn checklist(todo_list: SharedTodoList) -> (r: Self)
        ensures
            r.called() == "checklist_write"@,
            r.shared() == todo_list,
    {
        TodoWriteTool { todo_list, tool_name: "checklist_write" }
    }

    /// The list that the tool works on.
    pub fn todo_list(&self) -> (r: &SharedTodoList)
        ensures
            *r == self.shared(),
    {
        &self.todo_list
    }

    /// The name by which agents call the tool.
    pub fn name(&self) -> (r: &'static str)
        ensures
            r@ == self.called(),
    {
        self.tool_name
    }

    /// What agents are told of the tool.
    pub fn description(&self) -> (r: &'static str)
        ensures
            r@ == if self.called() == "todo_write"@ {
                "Compatibility alias for checklist_write. Replace the active thread/task checklist; durable tasks are the real executable work object."@
            } else {
                "Replace the active thread/task checklist. Use this for granular progress under the current durable task or runtime thread; durable tasks remain the real executable work object."@
            },
    {
        if same_text(self.tool_name, "todo_write") {
            "Compatibility alias for checklist_write. Replace the active thread/task checklist; durable tasks are the real executable work object."
        } else {
            "Replace the active thread/task checklist. Use this for granular progress under the current durable task or runtime thread; durable tasks remain the real executable work object."
        }
    }

    /// The JSON schema of the input.
    pub fn input_schema(&self) -> (r: Value)
        ensures
            json::json_view(r) == schema::object_schema(
                seq![
                    (
                        "todos"@,
                        schema::array_schema(
                            "The complete list of todo items. This replaces the existing list."@,
                            schema::object_schema(
                                seq![
                                    ("content"@, schema::text_schema("The task description"@)),
                                    (
                                        "status"@,
                                        schema::word_schema(
                                            schema::checklist_words(),
                                            "Task status"@,
                                        ),
                                    ),
                                ],
                                seq!["content"@, "status"@],
                            ),
                        ),
                    ),
                ],
                seq!["todos"@],
            ),
    {
        let item_properties = vec![
            json::field("content", schema::text_property("The task description")),
            json::field("status", schema::checklist_status_property("Task status")),
        ];
        let item_required = vec!["content", "status"];
        assert(json::field_views(item_properties@) =~= seq![
            ("content"@, schema::text_schema("The task description"@)),
            ("status"@, schema::word_schema(schema::checklist_words(), "Task status"@)),
        ]);
        assert(item_required@.map_values(|w: &str| w@) =~= seq!["content"@, "status"@]);
        let todo = schema::object_with(item_properties, item_required);
        let properties = vec![
            json::field(
                "todos",
                schema::array_property(
                    "The complete list of todo items. This replaces the existing list.",
                    todo,
                ),
            ),
        ];
        let required = vec!["todos"];
        assert(json::field_views(properties@) =~= seq![
            (
                "todos"@,
                schema::array_schema(
                    "The complete list of todo items. This replaces the existing list."@,
                    json::json_view(todo),
                ),
            ),
        ]);
        assert(required@.map_values(|w: &str| w@) =~= seq!["todos"@]);
        schema::object_with(properties, required)
    }

    /// What the tool may do.
    pub fn capabilities(&self) -> (r: Vec<ToolCapability>)
        ensures
            r@ == seq![ToolCapability::WritesFiles],
    {
        vec![ToolCapability::WritesFiles]
    }

    /// Calls need no consent.
    pub fn approval_requirement(&self) -> (r: ApprovalRequirement)
        ensures
            r == ApprovalRequirement::Auto,
    {
        ApprovalRequirement::Auto
    }

    /// Finds the todos in the input of a call.
    pub fn parse<'a>(input: &'a Value) -> (r: Result<&'a Vec<Value>, ToolError>)
        ensures
            match requested_todos(json::json_view(*input)) {
                Some(todos) => r matches Ok(found) && json::json_views(found@) == todos,
                None => r matches Err(e) && e@ == "Missing or invalid 'todos' array"@,
            },
    {
        match json::get_field(input, "todos") {
            Some(field) => match field.as_array() {
                Some(todos) => Ok(todos),
                None => Err(ToolError::invalid_input("Missing or invalid 'todos' array")),
            },
            None => Err(ToolError::invalid_input("Missing or invalid 'todos' array")),
        }
    }

    /// Clears the list and adds the todos to it. A todo without content ends this
    /// with an error; those before it stay in the list. Gives a snapshot of the
    /// new list.
    pub fn apply(todos: &Vec<Value>, list: &mut TodoList) -> (r: Result<
        TodoListSnapshot,
        ToolError,
    >)
        requires
            todos@.len() < u32::MAX,
        ensures
            exists|times: Seq<Timestamp>|
                times.len() == usable(json::json_views(todos@)) && (forall|i: int|
                    0 <= i < times.len() ==> (#[trigger] times[i]).valid()) && final(list)@
                    == #[trigger] written(json::json_views(todos@), times.len(), times),
            usable(json::json_views(todos@)) == todos@.len() ==> (r matches Ok(snapshot)
                && snapshot@ == final(list)@.snapshot()),
            usable(json::json_views(todos@)) < todos@.len() ==> (r matches Err(e) && e@
                == "Todo item missing 'content'"@),
            final(list).wf(),
    {
        let ghost views = json::json_views(todos@);
        let ghost mut times: Seq<Timestamp> = Seq::empty();
        list.clear();
        let mut i: usize = 0;
        while i < todos.len()
            invariant
                i <= todos@.len(),
                todos@.len() < u32::MAX,
                views == json::json_views(todos@),
                list.wf(),
                list@.next_id == i + 1,
                times.len() == i,
                forall|j: int| 0 <= j < i ==> (#[trigger] times[j]).valid(),
                list@ == written(views, i as nat, times),
                forall|j: int|
                    0 <= j < i ==> (#[trigger] views[j]).text_field("content"@) is Some,
            decreases todos@.len() - i,
        {
            assert(views[i as int] == json::json_view(todos@[i as int]));
            let content = match json::get_text(&todos[i], "content") {
                Some(content) => content,
                None => {
                    proof {
                        lemma_usable(views, i as int);
                    }
                    return Err(ToolError::invalid_input("Todo item missing 'content'"));
                },
            };
            let status = status_or_pending(json::get_text(&todos[i], "status"));
            let ghost before = list@;
            list.add(content.to_owned(), status);
            proof {
                let at = choose|at: Timestamp|
                    at.valid() && list@ == #[trigger] before.added(content@, status, at);
                let more = times.push(at);
                lemma_written_prefix(views, i as nat, times, more);
                times = more;
            }
            i += 1;
        }
        proof {
            lemma_usable(views, i as int);
        }
        Ok(list.snapshot())
    }

    /// Reports the new list, with its snapshot as it was serialized.
    pub fn report(&self, snapshot: &TodoListSnapshot, json: Option<String>) -> (r: ToolResult)
        ensures
            r@ == (ToolResultView {
                success: true,
                content: summary("Todo list updated ("@, snapshot@) + json::text_or_empty_object(
                    item::text_view(json),
                ),
                metadata: Some(tool::metadata_of(snapshot@, self.called())),
            }),
    {
        let mut content = write_summary("Todo list updated (", snapshot);
        content.append(json::or_empty_object(json).as_str());
        ToolResult::success(content).with_metadata(checklist_metadata(snapshot, self.tool_name))
    }
}

/// The todos that the input of a write names.
pub open spec fn requested_todos(input: Json) -> Option<Seq<Json>> {
    match input.field("todos"@) {
        Some(j) => j.elements(),
        None => None,
    }
}

} // verus!
