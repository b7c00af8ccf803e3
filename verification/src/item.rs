//! Todo items and snapshots of them.
use vstd::prelude::*;
use vstd::string::*;

use crate::clock::Timestamp;
use crate::status::TodoStatus;
use crate::text::decimal_text;

verus! {

/// A single todo item.
///
/// Flat-list items only set `id`, `content`, `status` and `created_at`. DAG-aware
/// items additionally set `depends_on`, the other timestamps, `result`, `error`,
/// `heartbeat`, and `restart_count`.
#[derive(Debug)]
pub struct TodoItem {
    pub id: u32,
    pub content: String,
    pub status: TodoStatus,
    /// DAG dependency list: item ids that must complete before this one.
    pub depends_on: Vec<u32>,
    /// When this item was created.
    pub created_at: Option<Timestamp>,
    /// When this item started executing.
    pub started_at: Option<Timestamp>,
    /// When this item reached a terminal status.
    pub completed_at: Option<Timestamp>,
    /// Last heartbeat from the worker.
    pub heartbeat: Option<Timestamp>,
    /// Result summary if completed.
    pub result: Option<String>,
    /// Error message if failed or skipped.
    pub error: Option<String>,
    /// Health-monitor restart counter.
    pub restart_count: u32,
}

/// The mathematical value of a [`TodoItem`].
#[verifier::ext_equal]
pub struct TodoItemView {
    pub id: u32,
    pub content: Seq<char>,
    pub status: TodoStatus,
    pub depends_on: Seq<u32>,
    pub created_at: Option<Timestamp>,
    pub started_at: Option<Timestamp>,
    pub completed_at: Option<Timestamp>,
    pub heartbeat: Option<Timestamp>,
    pub result: Option<Seq<char>>,
    pub error: Option<Seq<char>>,
    pub restart_count: u32,
}

/// The characters of an optional text.
pub open spec fn text_view(t: Option<String>) -> Option<Seq<char>> {
    match t {
        Some(s) => Some(s@),
        None => None,
    }
}

impl View for TodoItem {
    type V = TodoItemView;

    open spec fn view(&self) -> TodoItemView {
        TodoItemView {
            id: self.id,
            content: self.content@,
            status: self.status,
            depends_on: self.depends_on@,
            created_at: self.created_at,
            started_at: self.started_at,
            completed_at: self.completed_at,
            heartbeat: self.heartbeat,
            result: text_view(self.result),
            error: text_view(self.error),
            restart_count: self.restart_count,
        }
    }
}

/// The values of a sequence of items.
pub open spec fn item_views(items: Seq<TodoItem>) -> Seq<TodoItemView> {
    items.map_values(|it: TodoItem| it@)
}

impl Clone for TodoItem {
    fn clone(&self) -> (r: Self)
        ensures
            r@ == self@,
    {
        TodoItem {
            id: self.id,
            content: self.content.clone(),
            status: self.status,
            depends_on: self.depends_on.clone(),
            created_at: self.created_at,
            started_at: self.started_at,
            completed_at: self.completed_at,
            heartbeat: self.heartbeat,
            result: self.result.clone(),
            error: self.error.clone(),
            restart_count: self.restart_count,
        }
    }
}

impl TodoItem {
    /// Records a status report of the worker: the status and the heartbeat, the
    /// start or end of the work, and its result or error.
    pub fn record_status(
        &mut self,
        status: TodoStatus,
        result: Option<String>,
        error: Option<String>,
        beat: Timestamp,
        stamp: Timestamp,
    )
        ensures
            final(self)@ == old(self)@.marked(
                status,
                text_view(result),
                text_view(error),
                beat,
                stamp,
            ),
    {
        self.status = status;
        self.heartbeat = Some(beat);
        match status {
            TodoStatus::InProgress => {
                self.started_at = Some(stamp);
            },
            TodoStatus::Completed => {
                self.completed_at = Some(stamp);
                self.result = result;
            },
            TodoStatus::Failed => {
                self.error = error;
                self.completed_at = Some(stamp);
            },
            TodoStatus::Skipped => {
                if error.is_some() {
                    self.error = error;
                }
                self.completed_at = Some(stamp);
            },
            _ => {},
        }
    }

    /// Skips the item at the time `at` because item `id` failed.
    pub fn skip(&mut self, id: u32, at: Timestamp)
        ensures
            final(self)@ == old(self)@.skipped(id, at),
    {
        let mut message = String::from_str("Skipped: dependency #");
        message.append(decimal_text(id as u64).as_str());
        message.append(" failed");
        self.status = TodoStatus::Skipped;
        self.error = Some(message);
        self.completed_at = Some(at);
    }
}

/// Snapshot of a todo list for display or serialization.
#[derive(Debug)]
pub struct TodoListSnapshot {
    pub items: Vec<TodoItem>,
    pub completion_pct: u8,
    pub in_progress_id: Option<u32>,
}

/// The mathematical value of a [`TodoListSnapshot`].
#[verifier::ext_equal]
pub struct TodoListSnapshotView {
    pub items: Seq<TodoItemView>,
    pub completion_pct: nat,
    pub in_progress_id: Option<u32>,
}

impl View for TodoListSnapshot {
    type V = TodoListSnapshotView;

    open spec fn view(&self) -> TodoListSnapshotView {
        TodoListSnapshotView {
            items: item_views(self.items@),
            completion_pct: self.completion_pct as nat,
            in_progress_id: self.in_progress_id,
        }
    }
}

impl Clone for TodoListSnapshot {
    fn clone(&self) -> (r: Self)
        ensures
            r@ == self@,
    {
        TodoListSnapshot {
            items: clone_items(&self.items),
            completion_pct: self.completion_pct,
            in_progress_id: self.in_progress_id,
        }
    }
}

/// Copies the items.
pub(crate) fn clone_items(items: &Vec<TodoItem>) -> (r: Vec<TodoItem>)
    ensures
        item_views(r@) == item_views(items@),
{
    let r = items.clone();
    assert(item_views(r@) =~= item_views(items@));
    r
}

/// Whether the counter is zero; such a counter is left out of serialized items.
pub fn is_zero(n: &u32) -> (r: bool)
    ensures
        r == (*n == 0),
{
    *n == 0
}

} // verus!
