//! A todo list whose items can depend on each other, and the tools with which
//! agents work on it.
//!
//! The operations of [`TodoList`] are stated over the model in [`model`]; what
//! holds across them stands in [`laws`], and what each does to an item in
//! [`effects`]. The tools read JSON input, work on a list and report what became
//! of it; what they read and show stands in [`reports`].
pub mod checklist;
pub mod clock;
pub mod dag_tools;
pub mod effects;
pub mod graph;
pub mod item;
pub mod json;
pub mod laws;
mod lemmas;
pub mod list;
pub mod model;
pub mod reports;
pub mod schema;
pub mod status;
pub mod text;
pub mod tool;

pub use crate::checklist::{TodoAddTool, TodoListTool, TodoUpdateTool, TodoWriteTool};
pub use crate::clock::Timestamp;
pub use crate::dag_tools::{DagStatusTool, DynamicSubtaskTool, HeartbeatTool};
pub use crate::item::{is_zero, TodoItem, TodoListSnapshot};
pub use crate::list::TodoList;
pub use crate::status::TodoStatus;
pub use crate::tool::{
    checklist_metadata, new_shared_todo_list, ApprovalRequirement, SharedTodoList, ToolCapability,
    ToolError, ToolResult,
};
