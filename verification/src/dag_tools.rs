//! The tools of worker agents: add a subtask, show the DAG, send a heartbeat.
use vstd::prelude::*;
use vstd::string::*;

use serde_json::Value;

use crate::clock::Timestamp;
use crate::item;
use crate::item::{TodoItem, TodoItemView};
use crate::json;
use crate::json::Json;
use crate::list;
use crate::list::TodoList;
use crate::model::TodoListView;
use crate::schema;
use crate::status;
use crate::text;
use crate::text::decimal_text;
use crate::tool::{
    ApprovalRequirement, SharedTodoList, ToolCapability, ToolError, ToolResult, ToolResultView,
};

verus! {

/// Dynamic subtask addition tool. Worker agents call this to inject new
/// sub-items while executing, forming a DAG.
pub struct DynamicSubtaskTool {
    todo_list: SharedTodoList,
}

/// A call of the subtask tool. Without dependencies in the input, the subtask
/// depends on the items in progress.
#[derive(Debug)]
pub struct SubtaskRequest {
    pub content: String,
    pub depends_on: Option<Vec<u32>>,
}

/// What the subtask tool answers for the new item `id`.
pub open spec fn subtask_answer(id: u32) -> Json {
    Json::object(
        seq![
            ("id"@, Json::Int(id as int)),
            ("status"@, Json::Text("pending"@)),
            ("message"@, Json::Text("已添加子任务 #"@ + text::decimal(id as nat))),
        ],
    )
}

/// The dependencies that the input of a subtask call names: `None` for none at
/// all, `Some(None)` for something that is no list of ids.
pub open spec fn requested_dependencies(input: Json) -> Option<Option<Seq<u32>>> {
    match input.field("depends_on"@) {
        Some(j) => Some(j.ids()),
        None => None,
    }
}

impl DynamicSubtaskTool {
    /// The list that the tool works on.
    pub closed spec fn shared(&self) -> SharedTodoList {
        self.todo_list
    }

    /// The tool for the given list.
    pub fn new(todo_list: SharedTodoList) -> (r: Self)
        ensures
            r.shared() == todo_list,
    {
        DynamicSubtaskTool { todo_list }
    }

    /// The list that the tool works on.
    pub fn todo_list(&self) -> (r: &SharedTodoList)
        ensures
            *r == self.shared(),
    {
        &self.todo_list
    }

    /// The name by which agents call the tool.
    pub fn name(&self) -> (r: &'static str)
        ensures
            r@ == "task_dynamic_add"@,
    {
        "task_dynamic_add"
    }

    /// What agents are told of the tool.
    pub fn description(&self) -> (r: &'static str)
        ensures
            r@
                == "在当前任务执行过程中动态添加新的子任务。新任务依赖于指定的父任务。"@,
    {
        "在当前任务执行过程中动态添加新的子任务。新任务依赖于指定的父任务。"
    }

    /// The JSON schema of the input.
    pub fn input_schema(&self) -> (r: Value)
        ensures
            json::json_view(r) == schema::object_schema(
                seq![
                    ("title"@, schema::text_schema("子任务标题"@)),
                    ("prompt"@, schema::text_schema("子任务的执行描述"@)),
                    (
                        "depends_on"@,
                        schema::array_schema(
                            "依赖的 item ID 列表（可选，默认依赖当前所有 Ready 状态 item）"@,
                            schema::plain_integer_schema(),
                        ),
                    ),
                ],
                seq!["title"@, "prompt"@],
            ),
    {
        let properties = vec![
            json::field("title", schema::text_property("子任务标题")),
            json::field("prompt", schema::text_property("子任务的执行描述")),
            json::field(
                "depends_on",
                schema::array_property(
                    "依赖的 item ID 列表（可选，默认依赖当前所有 Ready 状态 item）",
                    schema::plain_integer(),
                ),
            ),
        ];
        let required = vec!["title", "prompt"];
        assert(json::field_views(properties@) =~= seq![
            ("title"@, schema::text_schema("子任务标题"@)),
            ("prompt"@, schema::text_schema("子任务的执行描述"@)),
            (
                "depends_on"@,
                schema::array_schema(
                    "依赖的 item ID 列表（可选，默认依赖当前所有 Ready 状态 item）"@,
                    schema::plain_integer_schema(),
                ),
            ),
        ]);
        assert(required@.map_values(|w: &str| w@) =~= seq!["title"@, "prompt"@]);
        schema::object_with(properties, required)
    }

    /// What the tool may do.
    pub fn capabilities(&self) -> (r: Vec<ToolCapability>)
        ensures
            r@ == seq![ToolCapability::ReadOnly],
    {
        vec![ToolCapability::ReadOnly]
    }

    /// Calls need no consent.
    pub fn approval_requirement(&self) -> (r: ApprovalRequirement)
        ensures
            r == ApprovalRequirement::Auto,
    {
        ApprovalRequirement::Auto
    }

    /// Reads the input of a call.
    pub fn parse(input: &Value) -> (r: Result<SubtaskRequest, ToolError>)
        ensures
            match (
                json::json_view(*input).text_field("title"@),
                json::json_view(*input).text_field("prompt"@),
            ) {
                (None, _) => r matches Err(e) && e@ == "Missing 'title'"@,
                (Some(_), None) => r matches Err(e) && e@ == "Missing 'prompt'"@,
                (Some(title), Some(prompt)) => match requested_dependencies(
                    json::json_view(*input),
                ) {
                    Some(None) => r matches Err(e) && e@ == "depends_on must be [integer]"@,
                    Some(Some(ids)) => r matches Ok(request) && request.content@ == title + ": "@
                        + prompt && (request.depends_on matches Some(d) && d@ == ids),
                    None => r matches Ok(request) && request.content@ == title + ": "@ + prompt
                        && request.depends_on is None,
                },
            },
    {
        let title = match json::get_text(input, "title") {
            Some(title) => title,
            None => return Err(ToolError::invalid_input("Missing 'title'")),
        };
        let prompt = match json::get_text(input, "prompt") {
            Some(prompt) => prompt,
            None => return Err(ToolError::invalid_input("Missing 'prompt'")),
        };
        let depends_on = match json::get_field(input, "depends_on") {
            Some(ids) => match json::parse_ids(ids) {
                Ok(ids) => Some(ids),
                Err(_) => return Err(ToolError::invalid_input("depends_on must be [integer]")),
            },
            None => None,
        };
        let mut content = String::from_str(title);
        content.append(": ");
        content.append(prompt);
        Ok(SubtaskRequest { content, depends_on })
    }

    /// The dependencies of a subtask whose input names none: the items in
    /// progress.
    pub fn default_dependencies(list: &TodoList) -> (r: Vec<u32>)
        ensures
            r@ == list@.running().map_values(|it: TodoItemView| it.id),
    {
        let running = list.get_running_items();
        let mut ids: Vec<u32> = Vec::new();
        let mut i: usize = 0;
        while i < running.len()
            invariant
                i <= running@.len(),
                list::ref_views(running@) == list@.running(),
                ids@.len() == i,
                forall|j: int| 0 <= j < i ==> #[trigger] ids@[j] == list@.running()[j].id,
            decreases running@.len() - i,
        {
            assert(running@[i as int]@ == list@.running()[i as int]);
            ids.push(running[i].id);
            i += 1;
        }
        assert(ids@ =~= list@.running().map_values(|it: TodoItemView| it.id));
        ids
    }

    /// The dependencies of a subtask: those that the input names, else the items
    /// in progress.
    pub fn dependencies(depends_on: Option<Vec<u32>>, list: &TodoList) -> (r: Vec<u32>)
        ensures
            r@ == match depends_on {
                Some(ids) => ids@,
                None => list@.running().map_values(|it: TodoItemView| it.id),
            },
    {
        match depends_on {
            Some(ids) => ids,
            None => DynamicSubtaskTool::default_dependencies(list),
        }
    }

    /// Adds the subtask to the list and reports its id.
    pub fn apply(content: String, depends_on: Vec<u32>, list: &mut TodoList) -> (r: Result<
        ToolResult,
        ToolError,
    >)
        requires
            old(list).wf(),
            old(list)@.refusal(depends_on@) is None ==> old(list)@.has_room(),
        ensures
            match old(list)@.refusal(depends_on@) {
                Some(message) => r matches Err(e) && e@ == message && final(list)@ == old(list)@,
                None => (exists|at: Timestamp|
                    at.valid() && final(list)@ == #[trigger] old(list)@.dag_added(
                        content@,
                        depends_on@,
                        at,
                    )) && (r matches Ok(result) && result@ == (ToolResultView {
                    success: true,
                    content: json::text_or_empty_object(
                        json::compact_text(subtask_answer(old(list)@.next_id)),
                    ),
                    metadata: None,
                })),
            },
            final(list).wf(),
    {
        match list.add_dag_item(content, depends_on) {
            Ok(id) => {
                let mut message = String::from_str("已添加子任务 #");
                message.append(decimal_text(id as u64).as_str());
                let fields = vec![
                    json::field("id", json::number(id as u64)),
                    json::field("status", json::text("pending")),
                    json::field("message", json::text(message.as_str())),
                ];
                let answer = json::object(fields);
                assert(json::field_views(fields@) =~= seq![
                    ("id"@, Json::Int(id as int)),
                    ("status"@, Json::Text("pending"@)),
                    ("message"@, Json::Text("已添加子任务 #"@ + text::decimal(id as nat))),
                ]);
                Ok(ToolResult::document(json::to_compact(&answer).ok()))
            },
            Err(e) => Err(ToolError::invalid_input(e.as_str())),
        }
    }
}

/// DAG status tool. Returns a structured view of the current DAG.
pub struct DagStatusTool {
    todo_list: SharedTodoList,
}

/// How the DAG status shows an item.
pub open spec fn task_status(it: TodoItemView) -> Json {
    Json::object(
        seq![
            ("id"@, Json::Int(it.id as int)),
            ("content"@, Json::Text(it.content)),
            ("status"@, Json::Text(status::status_word(it.status))),
            ("depends_on"@, Json::id_array(it.depends_on)),
            ("error"@, Json::optional_text(it.error)),
        ],
    )
}

/// The DAG status of a list.
pub open spec fn dag_status(l: TodoListView) -> Json {
    Json::object(
        seq![
            ("completion_pct"@, Json::Int(l.percentage() as int)),
            ("in_progress_id"@, Json::optional_id(l.in_progress())),
            ("is_all_terminal"@, Json::Bool(l.all_terminal())),
            ("tasks"@, Json::Array(l.items.map_values(|it: TodoItemView| task_status(it)))),
        ],
    )
}

/// Shows an item.
fn show_task(item: &TodoItem) -> (r: Value)
    ensures
        json::json_view(r) == task_status(item@),
{
    let fields = vec![
        json::field("id", json::number(item.id as u64)),
        json::field("content", json::text(item.content.as_str())),
        json::field("status", json::text(item.status.as_str())),
        json::field("depends_on", json::id_array(&item.depends_on)),
        json::field("error", json::optional_text(&item.error)),
    ];
    let r = json::object(fields);
    assert(json::field_views(fields@) =~= seq![
        ("id"@, Json::Int(item@.id as int)),
        ("content"@, Json::Text(item@.content)),
        ("status"@, Json::Text(status::status_word(item@.status))),
        ("depends_on"@, Json::id_array(item@.depends_on)),
        ("error"@, Json::optional_text(item@.error)),
    ]);
    r
}

impl DagStatusTool {
    /// The list that the tool works on.
    pub closed spec fn shared(&self) -> SharedTodoList {
        self.todo_list
    }

    /// The tool for the given list.
    pub fn new(todo_list: SharedTodoList) -> (r: Self)
        ensures
            r.shared() == todo_list,
    {
        DagStatusTool { todo_list }
    }

    /// The list that the tool works on.
    pub fn todo_list(&self) -> (r: &SharedTodoList)
        ensures
            *r == self.shared(),
    {
        &self.todo_list
    }

    /// The name by which agents call the tool.
    pub fn name(&self) -> (r: &'static str)
        ensures
            r@ == "task_dag_status"@,
    {
        "task_dag_status"
    }

    /// What agents are told of the tool.
    pub fn description(&self) -> (r: &'static str)
        ensures
            r@ == "查看当前 DAG 状态，包括每个子任务的进度和依赖关系。"@,
    {
        "查看当前 DAG 状态，包括每个子任务的进度和依赖关系。"
    }

    /// The JSON schema of the input.
    pub fn input_schema(&self) -> (r: Value)
        ensures
            json::json_view(r) == schema::empty_schema(),
    {
        schema::empty_object()
    }

    /// What the tool may do.
    pub fn capabilities(&self) -> (r: Vec<ToolCapability>)
        ensures
            r@ == seq![ToolCapability::ReadOnly],
    {
        vec![ToolCapability::ReadOnly]
    }

    /// Calls need no consent.
    pub fn approval_requirement(&self) -> (r: ApprovalRequirement)
        ensures
            r == ApprovalRequirement::Auto,
    {
        ApprovalRequirement::Auto
    }

    /// The DAG status of the list as a JSON document.
    pub fn document(list: &TodoList) -> (r: Value)
        ensures
            json::json_view(r) == dag_status(list@),
    {
        let items = list.items();
        let ghost vs = list@.items;
        let mut tasks: Vec<Value> = Vec::new();
        let mut i: usize = 0;
        while i < items.len()
            invariant
                i <= items@.len(),
                item::item_views(items@) == vs,
                tasks@.len() == i,
                forall|j: int|
                    0 <= j < i ==> json::json_view(#[trigger] tasks@[j]) == task_status(vs[j]),
            decreases items@.len() - i,
        {
            assert(items@[i as int]@ == vs[i as int]);
            tasks.push(show_task(&items[i]));
            i += 1;
        }
        assert(json::json_views(tasks@) =~= vs.map_values(|it: TodoItemView| task_status(it)));
        let fields = vec![
            json::field("completion_pct", json::number(list.completion_percentage() as u64)),
            json::field("in_progress_id", json::optional_id(list.in_progress_id())),
            json::field("is_all_terminal", json::boolean(list.is_all_terminal())),
            json::field("tasks", json::array(tasks)),
        ];
        let r = json::object(fields);
        assert(json::field_views(fields@) =~= seq![
            ("completion_pct"@, Json::Int(list@.percentage() as int)),
            ("in_progress_id"@, Json::optional_id(list@.in_progress())),
            ("is_all_terminal"@, Json::Bool(list@.all_terminal())),
            ("tasks"@, Json::Array(vs.map_values(|it: TodoItemView| task_status(it)))),
        ]);
        r
    }

    /// Reports the DAG status of the list.
    pub fn report(list: &TodoList) -> (r: ToolResult)
        ensures
            r@ == (ToolResultView {
                success: true,
                content: json::text_or_empty_object(json::pretty_text(dag_status(list@))),
                metadata: None,
            }),
    {
        ToolResult::document(json::to_pretty(&DagStatusTool::document(list)).ok())
    }
}

/// Heartbeat tool. Worker agents call this to signal liveness.
pub struct HeartbeatTool {
    todo_list: SharedTodoList,
}

/// A call of the heartbeat tool. The progress, if it is told, says how far the
/// work on the item is.
#[derive(Debug)]
pub struct HeartbeatRequest {
    pub item_id: u32,
    pub progress: Option<String>,
}

impl HeartbeatTool {
    /// The list that the tool works on.
    pub closed spec fn shared(&self) -> SharedTodoList {
        self.todo_list
    }

    /// The tool for the given list.
    pub fn new(todo_list: SharedTodoList) -> (r: Self)
        ensures
            r.shared() == todo_list,
    {
        HeartbeatTool { todo_list }
    }

    /// The list that the tool works on.
    pub fn todo_list(&self) -> (r: &SharedTodoList)
        ensures
            *r == self.shared(),
    {
        &self.todo_list
    }

    /// The name by which agents call the tool.
    pub fn name(&self) -> (r: &'static str)
        ensures
            r@ == "task_heartbeat"@,
    {
        "task_heartbeat"
    }

    /// What agents are told of the tool.
    pub fn description(&self) -> (r: &'static str)
        ensures
            r@ == "报告当前 item 的执行进度。每 60 秒调用一次。"@,
    {
        "报告当前 item 的执行进度。每 60 秒调用一次。"
    }

    /// The JSON schema of the input.
    pub fn input_schema(&self) -> (r: Value)
        ensures
            json::json_view(r) == schema::object_schema(
                seq![
                    ("item_id"@, schema::integer_schema("当前执行的 item ID"@)),
                    ("progress"@, schema::text_schema("当前的进展描述（可选）"@)),
                ],
                seq!["item_id"@],
            ),
    {
        let properties = vec![
            json::field("item_id", schema::integer_property("当前执行的 item ID")),
            json::field("progress", schema::text_property("当前的进展描述（可选）")),
        ];
        let required = vec!["item_id"];
        assert(json::field_views(properties@) =~= seq![
            ("item_id"@, schema::integer_schema("当前执行的 item ID"@)),
            ("progress"@, schema::text_schema("当前的进展描述（可选）"@)),
        ]);
        assert(required@.map_values(|w: &str| w@) =~= seq!["item_id"@]);
        schema::object_with(properties, required)
    }

    /// What the tool may do.
    pub fn capabilities(&self) -> (r: Vec<ToolCapability>)
        ensures
            r@ == seq![ToolCapability::ReadOnly],
    {
        vec![ToolCapability::ReadOnly]
    }

    /// Calls need no consent.
    pub fn approval_requirement(&self) -> (r: ApprovalRequirement)
        ensures
            r == ApprovalRequirement::Auto,
    {
        ApprovalRequirement::Auto
    }

    /// Reads the input of a call.
    pub fn parse(input: &Value) -> (r: Result<HeartbeatRequest, ToolError>)
        ensures
            match json::json_view(*input).id_field("item_id"@) {
                Some(id) => r matches Ok(request) && request.item_id == id && item::text_view(
                    request.progress,
                ) == json::json_view(*input).text_field("progress"@),
                None => r matches Err(e) && e@ == "Missing or invalid 'item_id'"@,
            },
    {
        match json::get_id(input, "item_id") {
            Some(item_id) => {
                let progress = match json::get_text(input, "progress") {
                    Some(text) => Some(text.to_owned()),
                    None => None,
                };
                Ok(HeartbeatRequest { item_id, progress })
            },
            None => Err(ToolError::invalid_input("Missing or invalid 'item_id'")),
        }
    }

    /// Notes the heartbeat of the item and its progress; an unknown id is answered
    /// alike.
    pub fn apply(request: HeartbeatRequest, list: &mut TodoList) -> (r: ToolResult)
        requires
            old(list).wf(),
        ensures
            exists|at: Timestamp|
                at.valid() && final(list)@ == #[trigger] old(list)@.progressed(
                    request.item_id,
                    item::text_view(request.progress),
                    at,
                ),
            r@ == (ToolResultView { success: true, content: "ok"@, metadata: None }),
            final(list).wf(),
    {
        list.record_progress(request.item_id, &request.progress);
        ToolResult::success(String::from_str("ok"))
    }
}

} // verus!
