use serde_json::Value;
use todo_dag::checklist::{AddRequest, UpdateRequest};
use todo_dag::dag_tools::HeartbeatRequest;
use todo_dag::json::object;
use todo_dag::text::starts_with;
use todo_dag::{
    checklist_metadata, new_shared_todo_list, ApprovalRequirement, DagStatusTool,
    DynamicSubtaskTool, HeartbeatTool, TodoAddTool, TodoList, TodoListTool, TodoStatus,
    TodoUpdateTool, TodoWriteTool, ToolCapability, ToolResult,
};

fn json(text: &str) -> Value {
    serde_json::from_str(text).unwrap()
}

#[test]
fn checklist_write_returns_task_update_metadata() {
    let tool = TodoWriteTool::checklist(new_shared_todo_list());
    let input = json(
        r#"{
            "todos": [
                { "content": "wire durable task tools", "status": "in_progress" },
                { "content": "run gates", "status": "pending" }
            ]
        }"#,
    );
    let todos = TodoWriteTool::parse(&input).expect("checklist write succeeds");
    let mut list = tool.todo_list().try_lock().unwrap();
    let snapshot = TodoWriteTool::apply(todos, &mut list).expect("checklist write succeeds");
    let result = tool.report(&snapshot, None);

    let metadata = result.metadata.expect("metadata");
    assert_eq!(metadata["canonical_tool"], "checklist_write");
    assert_eq!(metadata["compat_alias"], false);
    assert_eq!(
        metadata["task_updates"]["checklist"]["in_progress_id"],
        Value::from(1)
    );
    assert_eq!(
        metadata["task_updates"]["checklist"]["items"][0]["content"],
        "wire durable task tools"
    );
}

#[test]
fn todo_write_remains_compat_alias() {
    let tool = TodoWriteTool::new(new_shared_todo_list());
    let input = json(
        r#"{
            "todos": [
                { "content": "legacy caller", "status": "completed" }
            ]
        }"#,
    );
    let todos = TodoWriteTool::parse(&input).expect("todo write succeeds");
    let mut list = tool.todo_list().try_lock().unwrap();
    let snapshot = TodoWriteTool::apply(todos, &mut list).expect("todo write succeeds");
    let result = tool.report(&snapshot, None);

    let metadata = result.metadata.expect("metadata");
    assert_eq!(tool.name(), "todo_write");
    assert_eq!(metadata["canonical_tool"], "checklist_write");
    assert_eq!(metadata["compat_alias"], true);
}

#[test]
fn a_shared_list_starts_empty_and_is_shared() {
    let shared = new_shared_todo_list();
    let add = TodoAddTool::new(shared.clone());
    let list_tool = TodoListTool::new(shared);
    assert!(add.todo_list().try_lock().unwrap().items().is_empty());
    add.todo_list().try_lock().unwrap().add("a".into(), TodoStatus::Pending);
    assert_eq!(list_tool.todo_list().try_lock().unwrap().items()[0].id, 1);
}

#[test]
fn names_follow_the_constructor() {
    let shared = new_shared_todo_list();
    assert_eq!(TodoAddTool::new(shared.clone()).name(), "todo_add");
    assert_eq!(TodoAddTool::checklist(shared.clone()).name(), "checklist_add");
    assert_eq!(TodoUpdateTool::new(shared.clone()).name(), "todo_update");
    assert_eq!(TodoUpdateTool::checklist(shared.clone()).name(), "checklist_update");
    assert_eq!(TodoListTool::new(shared.clone()).name(), "todo_list");
    assert_eq!(TodoListTool::checklist(shared.clone()).name(), "checklist_list");
    assert_eq!(TodoWriteTool::checklist(shared.clone()).name(), "checklist_write");
    assert_eq!(DynamicSubtaskTool::new(shared.clone()).name(), "task_dynamic_add");
    assert_eq!(DagStatusTool::new(shared.clone()).name(), "task_dag_status");
    assert_eq!(HeartbeatTool::new(shared).name(), "task_heartbeat");
}

#[test]
fn descriptions_tell_aliases_apart() {
    let shared = new_shared_todo_list();
    assert!(TodoAddTool::new(shared.clone()).description().starts_with("Compatibility alias"));
    assert!(TodoAddTool::checklist(shared.clone()).description().starts_with("Add one"));
    assert!(TodoUpdateTool::new(shared.clone()).description().starts_with("Compatibility alias"));
    assert!(TodoUpdateTool::checklist(shared.clone()).description().starts_with("Update one"));
    assert!(TodoListTool::new(shared.clone()).description().starts_with("Compatibility alias"));
    assert!(TodoListTool::checklist(shared.clone()).description().starts_with("List current"));
    assert!(TodoWriteTool::new(shared.clone()).description().starts_with("Compatibility alias"));
    assert!(TodoWriteTool::checklist(shared.clone()).description().starts_with("Replace the"));
    assert!(DynamicSubtaskTool::new(shared.clone()).description().contains("子任务"));
    assert!(DagStatusTool::new(shared.clone()).description().contains("DAG"));
    assert!(HeartbeatTool::new(shared).description().contains("60"));
}

#[test]
fn capabilities_and_approval() {
    let shared = new_shared_todo_list();
    let write = TodoWriteTool::new(shared.clone());
    assert_eq!(write.capabilities(), vec![ToolCapability::WritesFiles]);
    assert_eq!(write.approval_requirement(), ApprovalRequirement::Auto);
    let add = TodoAddTool::new(shared.clone());
    assert_eq!(add.capabilities(), vec![ToolCapability::WritesFiles]);
    assert_eq!(add.approval_requirement(), ApprovalRequirement::Auto);
    let update = TodoUpdateTool::new(shared.clone());
    assert_eq!(update.capabilities(), vec![ToolCapability::WritesFiles]);
    let list = TodoListTool::new(shared.clone());
    assert_eq!(list.capabilities(), vec![ToolCapability::ReadOnly]);
    let subtask = DynamicSubtaskTool::new(shared.clone());
    assert_eq!(subtask.capabilities(), vec![ToolCapability::ReadOnly]);
    let status = DagStatusTool::new(shared.clone());
    assert_eq!(status.capabilities(), vec![ToolCapability::ReadOnly]);
    let heartbeat = HeartbeatTool::new(shared);
    assert_eq!(heartbeat.capabilities(), vec![ToolCapability::ReadOnly]);
    assert_eq!(heartbeat.approval_requirement(), ApprovalRequirement::Auto);
}

#[test]
fn schemas_are_as_documented() {
    let shared = new_shared_todo_list();
    assert_eq!(
        TodoAddTool::new(shared.clone()).input_schema(),
        json(
            r#"{
                "type": "object",
                "properties": {
                    "content": { "type": "string", "description": "The task description" },
                    "status": {
                        "type": "string",
                        "enum": ["pending", "in_progress", "completed"],
                        "description": "Task status (default: pending)"
                    }
                },
                "required": ["content"]
            }"#
        )
    );
    assert_eq!(
        TodoUpdateTool::new(shared.clone()).input_schema(),
        json(
            r#"{
                "type": "object",
                "properties": {
                    "id": { "type": "integer", "description": "Todo item id" },
                    "status": {
                        "type": "string",
                        "enum": ["pending", "in_progress", "completed", "failed", "skipped"],
                        "description": "New status"
                    }
                },
                "required": ["id", "status"]
            }"#
        )
    );
    let empty = json(r#"{ "type": "object", "properties": {} }"#);
    assert_eq!(TodoListTool::new(shared.clone()).input_schema(), empty);
    assert_eq!(DagStatusTool::new(shared.clone()).input_schema(), empty);
    assert_eq!(
        TodoWriteTool::new(shared.clone()).input_schema(),
        json(
            r#"{
                "type": "object",
                "properties": {
                    "todos": {
                        "type": "array",
                        "description": "The complete list of todo items. This replaces the existing list.",
                        "items": {
                            "type": "object",
                            "properties": {
                                "content": {
                                    "type": "string",
                                    "description": "The task description"
                                },
                                "status": {
                                    "type": "string",
                                    "enum": ["pending", "in_progress", "completed"],
                                    "description": "Task status"
                                }
                            },
                            "required": ["content", "status"]
                        }
                    }
                },
                "required": ["todos"]
            }"#
        )
    );
    assert_eq!(
        DynamicSubtaskTool::new(shared.clone()).input_schema(),
        json(
            r#"{
                "type": "object",
                "properties": {
                    "title": { "type": "string", "description": "子任务标题" },
                    "prompt": { "type": "string", "description": "子任务的执行描述" },
                    "depends_on": {
                        "type": "array",
                        "items": { "type": "integer" },
                        "description": "依赖的 item ID 列表（可选，默认依赖当前所有 Ready 状态 item）"
                    }
                },
                "required": ["title", "prompt"]
            }"#
        )
    );
    assert_eq!(
        HeartbeatTool::new(shared).input_schema(),
        json(
            r#"{
                "type": "object",
                "properties": {
                    "item_id": { "type": "integer", "description": "当前执行的 item ID" },
                    "progress": { "type": "string", "description": "当前的进展描述（可选）" }
                },
                "required": ["item_id"]
            }"#
        )
    );
}

#[test]
fn adding_an_item() {
    let tool = TodoAddTool::checklist(new_shared_todo_list());
    let request = TodoAddTool::parse(&json(r#"{ "content": "a", "status": " DONE " }"#)).unwrap();
    assert_eq!(request.content, "a");
    assert_eq!(request.status, TodoStatus::Completed);
    let mut list = TodoList::new();
    let (item, snapshot) = TodoAddTool::apply(request, &mut list);
    assert_eq!(item.id, 1);
    assert_eq!(snapshot.completion_pct, 100);
    let result = tool.report(&item, &snapshot, Some("{..}".to_string()));
    assert!(result.success);
    assert_eq!(result.content, "Added todo #1 (completed)\n{..}");
    assert_eq!(result.metadata, Some(checklist_metadata(&snapshot, "checklist_add")));
    let bare = tool.report(&item, &snapshot, None);
    assert_eq!(bare.content, "Added todo #1 (completed)\n{}");
}

#[test]
fn the_input_of_an_addition() {
    let error = TodoAddTool::parse(&json(r#"{ "status": "ready" }"#)).unwrap_err();
    assert_eq!(error.message(), "Missing 'content'");
    let error = TodoAddTool::parse(&json(r#"{ "content": 3 }"#)).unwrap_err();
    assert_eq!(error.message(), "Missing 'content'");
    assert!(TodoAddTool::parse(&json(r#""content""#)).is_err());
    for text in [r#"{ "content": "" }"#, r#"{ "content": "", "status": 1 }"#] {
        let request = TodoAddTool::parse(&json(text)).unwrap();
        assert_eq!(request.status, TodoStatus::Pending);
    }
    let unknown = json(r#"{ "content": "x", "status": "someday" }"#);
    assert_eq!(TodoAddTool::parse(&unknown).unwrap().status, TodoStatus::Pending);
}

#[test]
fn updating_goes_through_the_dependencies() {
    let tool = TodoUpdateTool::new(new_shared_todo_list());
    let mut list = TodoList::new();
    list.add_dag_item("a".into(), vec![]).unwrap();
    list.add_dag_item("b".into(), vec![1]).unwrap();
    let request = TodoUpdateTool::parse(&json(r#"{ "id": 1, "status": "completed" }"#)).unwrap();
    let (found, snapshot) = TodoUpdateTool::apply(&request, &mut list);
    assert!(found);
    assert_eq!(list.items()[1].status, TodoStatus::Ready);
    assert!(list.items()[0].completed_at.is_some());
    let result = tool.report(&request, found, &snapshot, Some("[]".to_string()));
    assert!(result.success);
    assert_eq!(result.content, "Updated todo #1 to completed\n[]");
    let metadata = result.metadata.unwrap();
    assert_eq!(metadata["compat_alias"], true);
    assert_eq!(metadata["task_updates"]["checklist"]["items"][1]["status"], "ready");
    assert_eq!(metadata["task_updates"]["checklist"]["completion_pct"], 50);
    assert!(metadata["task_updates"]["checklist"]["in_progress_id"].is_null());
    assert!(metadata["task_updates"]["checklist"]["updated_at"].is_null());
}

#[test]
fn updating_to_pending_or_ready_is_light() {
    let mut list = TodoList::new();
    list.add_dag_item("a".into(), vec![]).unwrap();
    for status in [TodoStatus::Pending, TodoStatus::Ready] {
        let (found, _) = TodoUpdateTool::apply(&UpdateRequest { id: 1, status }, &mut list);
        assert!(found);
        assert_eq!(list.items()[0].status, status);
        assert_eq!(list.items()[0].heartbeat, None);
    }
    let request = UpdateRequest { id: 1, status: TodoStatus::Skipped };
    TodoUpdateTool::apply(&request, &mut list);
    assert!(list.items()[0].heartbeat.is_some());
    assert!(list.items()[0].completed_at.is_some());
}

#[test]
fn updating_an_unknown_item() {
    let tool = TodoUpdateTool::checklist(new_shared_todo_list());
    let mut list = TodoList::new();
    let request = UpdateRequest { id: 40, status: TodoStatus::Failed };
    let (found, snapshot) = TodoUpdateTool::apply(&request, &mut list);
    assert!(!found);
    let result = tool.report(&request, found, &snapshot, None);
    assert!(!result.success);
    assert_eq!(result.content, "Todo id 40 not found");
    assert!(result.metadata.is_none());
}

#[test]
fn the_input_of_an_update() {
    for text in [
        r#"{ "status": "ready" }"#,
        r#"{ "id": "1", "status": "ready" }"#,
        r#"{ "id": -1, "status": "ready" }"#,
        r#"{ "id": 1.0, "status": "ready" }"#,
        r#"{ "id": 4294967296, "status": "ready" }"#,
        r#"[]"#,
    ] {
        let error = TodoUpdateTool::parse(&json(text)).unwrap_err();
        assert_eq!(error.message(), "Missing or invalid 'id'");
    }
    for text in [r#"{ "id": 1 }"#, r#"{ "id": 1, "status": "?" }"#] {
        let error = TodoUpdateTool::parse(&json(text)).unwrap_err();
        assert_eq!(error.message(), "Missing or invalid 'status'");
    }
    let request = TodoUpdateTool::parse(&json(r#"{ "id": 4294967295, "status": "ready" }"#));
    let request = request.unwrap();
    assert_eq!(request.id, u32::MAX);
    assert_eq!(request.status, TodoStatus::Ready);
}

#[test]
fn listing_items() {
    let mut list = TodoList::new();
    list.add("a".into(), TodoStatus::Completed);
    list.add("b".into(), TodoStatus::Pending);
    list.add("c".into(), TodoStatus::Pending);
    let result = TodoListTool::report(&list.snapshot(), Some("...".to_string()));
    assert_eq!(result.content, "Todo list (3 items, 33% complete)\n...");
    assert!(result.success);
    assert!(result.metadata.is_none());
    assert_eq!(
        TodoListTool::report(&list.snapshot(), None).content,
        "Todo list (3 items, 33% complete)\n{}"
    );
}

#[test]
fn writing_replaces_the_list() {
    let tool = TodoWriteTool::checklist(new_shared_todo_list());
    let mut list = TodoList::new();
    list.add("old".into(), TodoStatus::InProgress);
    let input = json(
        r#"{ "todos": [
            { "content": "a", "status": "in_progress" },
            { "content": "b", "status": "completed" },
            { "content": "c", "status": "inprogress" },
            { "content": "d" },
            { "content": "e", "status": "whenever" }
        ] }"#,
    );
    let todos = TodoWriteTool::parse(&input).unwrap();
    let snapshot = TodoWriteTool::apply(todos, &mut list).unwrap();
    let ids: Vec<u32> = list.items().iter().map(|i| i.id).collect();
    assert_eq!(ids, vec![1, 2, 3, 4, 5]);
    let contents: Vec<&str> = list.items().iter().map(|i| i.content.as_str()).collect();
    assert_eq!(contents, vec!["a", "b", "c", "d", "e"]);
    let statuses: Vec<TodoStatus> = list.items().iter().map(|i| i.status).collect();
    assert_eq!(
        statuses,
        vec![
            TodoStatus::Pending,
            TodoStatus::Completed,
            TodoStatus::InProgress,
            TodoStatus::Pending,
            TodoStatus::Pending
        ]
    );
    let result = tool.report(&snapshot, Some("{}".to_string()));
    assert_eq!(result.content, "Todo list updated (5 items, 20% complete)\n{}");
}

#[test]
fn writing_stops_at_a_todo_without_content() {
    let mut list = TodoList::new();
    list.add("old".into(), TodoStatus::Pending);
    list.add("older".into(), TodoStatus::Pending);
    let input = json(r#"{ "todos": [{ "content": "a" }, { "status": "ready" }, { "content": "c" }] }"#);
    let todos = TodoWriteTool::parse(&input).unwrap();
    let error = TodoWriteTool::apply(todos, &mut list).unwrap_err();
    assert_eq!(error.message(), "Todo item missing 'content'");
    assert_eq!(list.items().len(), 1);
    assert_eq!(list.items()[0].content, "a");
}

#[test]
fn the_input_of_a_write() {
    for text in [r#"{}"#, r#"{ "todos": "a" }"#, r#"{ "todos": { "content": "a" } }"#] {
        let error = TodoWriteTool::parse(&json(text)).unwrap_err();
        assert_eq!(error.message(), "Missing or invalid 'todos' array");
    }
    let mut list = TodoList::new();
    list.add("old".into(), TodoStatus::Pending);
    let snapshot = TodoWriteTool::apply(&vec![], &mut list).unwrap();
    assert!(snapshot.items.is_empty());
    assert_eq!(snapshot.completion_pct, 0);
}

#[test]
fn adding_a_subtask() {
    let mut list = TodoList::new();
    list.add("a".into(), TodoStatus::Pending);
    let input = json(r#"{ "title": "look", "prompt": "closely", "depends_on": [1] }"#);
    let request = DynamicSubtaskTool::parse(&input).unwrap();
    assert_eq!(request.content, "look: closely");
    assert_eq!(request.depends_on, Some(vec![1]));
    let result = DynamicSubtaskTool::apply(request.content, vec![1], &mut list).unwrap();
    assert!(result.success);
    assert_eq!(
        result.content,
        r##"{"id":2,"message":"已添加子任务 #2","status":"pending"}"##
    );
    assert!(result.metadata.is_none());
    assert_eq!(list.items()[1].content, "look: closely");
    assert_eq!(list.items()[1].depends_on, vec![1]);
    let error = DynamicSubtaskTool::apply("x".into(), vec![3], &mut list).unwrap_err();
    assert_eq!(error.message(), "Dependency item #3 does not exist");
}

#[test]
fn subtasks_depend_on_what_is_running() {
    let mut list = TodoList::new();
    list.add_dag_item("a".into(), vec![]).unwrap();
    list.add_dag_item("b".into(), vec![]).unwrap();
    list.add_dag_item("c".into(), vec![]).unwrap();
    assert!(DynamicSubtaskTool::default_dependencies(&list).is_empty());
    list.update_dag_status(1, TodoStatus::InProgress, None, None);
    list.update_dag_status(3, TodoStatus::InProgress, None, None);
    assert_eq!(DynamicSubtaskTool::default_dependencies(&list), vec![1, 3]);
    let request = DynamicSubtaskTool::parse(&json(r#"{ "title": "t", "prompt": "p" }"#)).unwrap();
    assert_eq!(request.depends_on, None);
    assert_eq!(DynamicSubtaskTool::dependencies(request.depends_on, &list), vec![1, 3]);
    assert_eq!(DynamicSubtaskTool::dependencies(Some(vec![2]), &list), vec![2]);
    assert!(DynamicSubtaskTool::dependencies(Some(vec![]), &list).is_empty());
}

#[test]
fn the_input_of_a_subtask() {
    let error = DynamicSubtaskTool::parse(&json(r#"{ "prompt": "p" }"#)).unwrap_err();
    assert_eq!(error.message(), "Missing 'title'");
    let error = DynamicSubtaskTool::parse(&json(r#"{ "title": "t" }"#)).unwrap_err();
    assert_eq!(error.message(), "Missing 'prompt'");
    for deps in ["null", "1", "[1, -1]", "[\"1\"]", "[1.5]", "[4294967296]", "{}"] {
        let text = format!(r#"{{ "title": "t", "prompt": "p", "depends_on": {} }}"#, deps);
        let error = DynamicSubtaskTool::parse(&json(&text)).unwrap_err();
        assert_eq!(error.message(), "depends_on must be [integer]");
    }
    let input = json(r#"{ "title": "t", "prompt": "p", "depends_on": [0, 4294967295] }"#);
    let request = DynamicSubtaskTool::parse(&input).unwrap();
    assert_eq!(request.depends_on, Some(vec![0, u32::MAX]));
    let input = json(r#"{ "title": "t", "prompt": "p", "depends_on": [] }"#);
    assert_eq!(DynamicSubtaskTool::parse(&input).unwrap().depends_on, Some(vec![]));
}

#[test]
fn the_dag_status() {
    let mut list = TodoList::new();
    list.add_dag_item("a".into(), vec![]).unwrap();
    list.add_dag_item("b".into(), vec![1]).unwrap();
    list.update_dag_status(1, TodoStatus::Failed, None, None);
    let expected = json(
        r##"{
            "completion_pct": 0,
            "in_progress_id": null,
            "is_all_terminal": true,
            "tasks": [
                { "id": 1, "content": "a", "status": "failed", "depends_on": [], "error": null },
                {
                    "id": 2,
                    "content": "b",
                    "status": "skipped",
                    "depends_on": [1],
                    "error": "Skipped: dependency #1 failed"
                }
            ]
        }"##,
    );
    assert_eq!(DagStatusTool::document(&list), expected);
    let result = DagStatusTool::report(&list);
    assert!(result.success);
    assert!(result.content.starts_with("{\n  \"completion_pct\": 0,\n  \"in_progress_id\": null,"));
    assert_eq!(json(&result.content), expected);
    list.update_dag_status(1, TodoStatus::InProgress, None, None);
    let document = DagStatusTool::document(&list);
    assert_eq!(document["in_progress_id"], 1);
    assert_eq!(document["is_all_terminal"], false);
}

#[test]
fn a_document_that_cannot_be_written_is_empty() {
    let result = ToolResult::document(None);
    assert!(result.success);
    assert_eq!(result.content, "{}");
    assert_eq!(ToolResult::document(Some("[1]".to_string())).content, "[1]");
}

#[test]
fn heartbeats() {
    let mut list = TodoList::new();
    list.add_dag_item("a".into(), vec![]).unwrap();
    let request = HeartbeatTool::parse(&json(r#"{ "item_id": 1 }"#)).unwrap();
    assert_eq!(request.progress, None);
    let result = HeartbeatTool::apply(request, &mut list);
    assert!(result.success);
    assert_eq!(result.content, "ok");
    assert!(list.items()[0].heartbeat.is_some());
    assert_eq!(list.items()[0].result, None);
    for text in [r#"{}"#, r#"{ "item_id": null }"#, r#"{ "item_id": 4294967296 }"#] {
        let error = HeartbeatTool::parse(&json(text)).unwrap_err();
        assert_eq!(error.message(), "Missing or invalid 'item_id'");
    }
}

#[test]
fn heartbeats_keep_the_progress() {
    let mut list = TodoList::new();
    list.add_dag_item("a".into(), vec![]).unwrap();
    let input = json(r#"{ "item_id": 1, "progress": "half" }"#);
    let request = HeartbeatTool::parse(&input).unwrap();
    assert_eq!(request.item_id, 1);
    assert_eq!(request.progress.as_deref(), Some("half"));
    let result = HeartbeatTool::apply(request, &mut list);
    assert!(result.success);
    assert_eq!(result.content, "ok");
    assert!(list.items()[0].heartbeat.is_some());
    assert_eq!(list.items()[0].status, TodoStatus::Ready);
    assert_eq!(list.items()[0].result.as_deref(), Some("[progress] half"));

    for text in [
        r#"{ "item_id": 1 }"#,
        r#"{ "item_id": 1, "progress": "" }"#,
        r#"{ "item_id": 1, "progress": 50 }"#,
    ] {
        let request = HeartbeatTool::parse(&json(text)).unwrap();
        HeartbeatTool::apply(request, &mut list);
        assert_eq!(list.items()[0].result.as_deref(), Some("[progress] half"));
    }

    let unknown = HeartbeatRequest { item_id: 2, progress: Some("done".into()) };
    assert_eq!(HeartbeatTool::apply(unknown, &mut list).content, "ok");
    assert_eq!(list.items().len(), 1);
    assert_eq!(list.items()[0].result.as_deref(), Some("[progress] half"));
}

#[test]
fn objects_hold_their_fields() {
    assert_eq!(object(vec![]), json("{}"));
    let fields = vec![("b".into(), Value::from(2)), ("a".into(), Value::from("x"))];
    let built = object(fields);
    assert_eq!(built, json(r#"{ "a": "x", "b": 2 }"#));
    assert_eq!(built.to_string(), r#"{"a":"x","b":2}"#);
}

#[test]
fn the_later_of_two_fields_with_one_name_counts() {
    let fields = vec![
        ("a".into(), Value::Null),
        ("b".into(), Value::from(1)),
        ("a".into(), Value::from(true)),
    ];
    assert_eq!(object(fields), json(r#"{ "a": true, "b": 1 }"#));
}

#[test]
fn prefixes() {
    assert!(starts_with("todo_add", "todo_"));
    assert!(starts_with("todo_", "todo_"));
    assert!(starts_with("", ""));
    assert!(!starts_with("todo", "todo_"));
    assert!(!starts_with("checklist_add", "todo_"));
    assert!(starts_with("\u{e4}\u{f6}x", "\u{e4}\u{f6}"));
    assert!(!starts_with("\u{e4}x", "\u{e4}\u{f6}"));
}

#[test]
fn metadata_tells_aliases_by_their_name() {
    let mut list = TodoList::new();
    let request = AddRequest { content: "a".to_string(), status: TodoStatus::InProgress };
    let (_, snapshot) = TodoAddTool::apply(request, &mut list);
    for (name, alias) in [("todo_add", true), ("checklist_add", false), ("todo", false)] {
        let expected = format!(
            r#"{{
                "canonical_tool": "checklist_write",
                "compat_alias": {},
                "task_updates": {{
                    "checklist": {{
                        "items": [{{ "id": 1, "content": "a", "status": "in_progress" }}],
                        "completion_pct": 0,
                        "in_progress_id": 1,
                        "updated_at": null
                    }}
                }}
            }}"#,
            alias
        );
        assert_eq!(checklist_metadata(&snapshot, name), json(&expected));
    }
}
