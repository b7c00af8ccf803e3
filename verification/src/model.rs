//! The mathematical model of a todo list: what each operation makes of it.
use vstd::prelude::*;

use crate::clock::Timestamp;
use crate::item::{TodoItemView, TodoListSnapshotView};
use crate::graph;
use crate::status;
use crate::status::TodoStatus;
use crate::text;

verus! {

/// The mathematical value of a todo list.
#[verifier::ext_equal]
pub struct TodoListView {
    pub items: Seq<TodoItemView>,
    /// The id that the next item gets.
    pub next_id: u32,
}

/// The clock readings that go into one DAG status update: the heartbeat, the
/// start or completion of the updated item, and the completion of each item
/// that is skipped because of it, by its place in the list.
pub struct DagTimes {
    pub beat: Timestamp,
    pub stamp: Timestamp,
    pub skips: Seq<Timestamp>,
}

/// The message for a dependency on an item that is not there.
pub open spec fn missing_dependency_message(id: u32) -> Seq<char> {
    "Dependency item #"@ + text::decimal(id as nat) + " does not exist"@
}

/// The message for a dependency that would close a cycle.
pub open spec fn cycle_message() -> Seq<char> {
    "Adding this item would create a cycle"@
}

/// The error of an item that is skipped because item `id` failed.
pub open spec fn skip_message(id: u32) -> Seq<char> {
    "Skipped: dependency #"@ + text::decimal(id as nat) + " failed"@
}

/// The result of an item that is still worked on.
pub open spec fn progress_message(progress: Seq<char>) -> Seq<char> {
    "[progress] "@ + progress
}

impl TodoItemView {
    /// A newly created item.
    pub open spec fn fresh(
        id: u32,
        content: Seq<char>,
        status: TodoStatus,
        depends_on: Seq<u32>,
        at: Timestamp,
    ) -> TodoItemView {
        TodoItemView {
            id,
            content,
            status,
            depends_on,
            created_at: Some(at),
            started_at: None,
            completed_at: None,
            heartbeat: None,
            result: None,
            error: None,
            restart_count: 0,
        }
    }

    /// Which items have the status `status`.
    pub open spec fn has_status(status: TodoStatus) -> spec_fn(TodoItemView) -> bool {
        |it: TodoItemView| it.status == status
    }

    /// The item with another status and nothing else changed.
    pub open spec fn with_status(self, status: TodoStatus) -> TodoItemView {
        TodoItemView { status, ..self }
    }

    /// The item, put back to `Pending` if it was in progress.
    pub open spec fn demoted(self) -> TodoItemView {
        if self.status == TodoStatus::InProgress {
            self.with_status(TodoStatus::Pending)
        } else {
            self
        }
    }

    /// The item after a status report of its worker. An item that reaches a
    /// terminal status is stamped as completed. A result counts only with
    /// `Completed`, an error only with `Failed` and `Skipped`: failing always
    /// replaces the error, skipping does so if an error is given.
    pub open spec fn marked(
        self,
        status: TodoStatus,
        result: Option<Seq<char>>,
        error: Option<Seq<char>>,
        beat: Timestamp,
        stamp: Timestamp,
    ) -> TodoItemView {
        let seen = TodoItemView { status, heartbeat: Some(beat), ..self };
        match status {
            TodoStatus::InProgress => TodoItemView { started_at: Some(stamp), ..seen },
            TodoStatus::Completed => TodoItemView { completed_at: Some(stamp), result, ..seen },
            TodoStatus::Failed => TodoItemView { completed_at: Some(stamp), error, ..seen },
            TodoStatus::Skipped => TodoItemView {
                completed_at: Some(stamp),
                error: if error is Some {
                    error
                } else {
                    self.error
                },
                ..seen
            },
            _ => seen,
        }
    }

    /// The item is pending and lists `id` among its dependencies.
    pub open spec fn blocked_on(self, id: u32) -> bool {
        self.status == TodoStatus::Pending && self.depends_on.contains(id)
    }

    /// The item, skipped at the time `at` because item `id` failed.
    pub open spec fn skipped(self, id: u32, at: Timestamp) -> TodoItemView {
        TodoItemView {
            status: TodoStatus::Skipped,
            error: Some(skip_message(id)),
            completed_at: Some(at),
            ..self
        }
    }
}

impl TodoListView {
    /// The list without items whose first item will have the id 1.
    pub open spec fn empty() -> TodoListView {
        TodoListView { items: Seq::empty(), next_id: 1 }
    }

    /// The id of the first item.
    pub open spec fn first_id(self) -> int {
        self.next_id - self.items.len()
    }

    /// The ids run without gaps up to `next_id`, and an item depends only on
    /// items before it.
    pub open spec fn wf(self) -> bool {
        &&& self.first_id() >= 0
        &&& forall|j: int|
            0 <= j < self.items.len() ==> (#[trigger] self.items[j]).id == self.first_id() + j
        &&& forall|j: int, k: int|
            0 <= j < self.items.len() && 0 <= k < self.items[j].depends_on.len()
                ==> self.first_id() <= #[trigger] self.items[j].depends_on[k] < self.items[j].id
    }

    /// Another item can still be numbered.
    pub open spec fn has_room(self) -> bool {
        self.next_id < u32::MAX
    }

    /// The item with the id `id`.
    pub open spec fn lookup(self, id: u32) -> Option<TodoItemView> {
        if self.first_id() <= id < self.next_id {
            Some(self.items[id - self.first_id()])
        } else {
            None
        }
    }

    /// The list with the item `id` replaced by what `f` makes of it.
    pub open spec fn updated(
        self,
        id: u32,
        f: spec_fn(TodoItemView) -> TodoItemView,
    ) -> TodoListView {
        TodoListView {
            items: self.items.map_values(
                |it: TodoItemView|
                    if it.id == id {
                        f(it)
                    } else {
                        it
                    },
            ),
            ..self
        }
    }

    /// The list with all items in progress put back to pending, but the item
    /// `keep`.
    pub open spec fn demoted_except(self, keep: Option<u32>) -> TodoListView {
        TodoListView {
            items: self.items.map_values(
                |it: TodoItemView|
                    if keep == Some(it.id) {
                        it
                    } else {
                        it.demoted()
                    },
            ),
            ..self
        }
    }

    /// The list with one more item.
    pub open spec fn pushed(
        self,
        content: Seq<char>,
        status: TodoStatus,
        depends_on: Seq<u32>,
        at: Timestamp,
    ) -> TodoListView {
        TodoListView {
            items: self.items.push(
                TodoItemView::fresh(self.next_id, content, status, depends_on, at),
            ),
            next_id: (self.next_id + 1) as u32,
        }
    }

    /// The list after adding a flat item: it alone is in progress if it is so.
    pub open spec fn added(
        self,
        content: Seq<char>,
        status: TodoStatus,
        at: Timestamp,
    ) -> TodoListView {
        if status == TodoStatus::InProgress {
            self.demoted_except(None).pushed(content, status, Seq::empty(), at)
        } else {
            self.pushed(content, status, Seq::empty(), at)
        }
    }

    /// The list after giving item `id` a status: it alone is in progress if it
    /// is so.
    pub open spec fn status_updated(self, id: u32, status: TodoStatus) -> TodoListView {
        let f = |it: TodoItemView| it.with_status(status);
        if status == TodoStatus::InProgress {
            self.demoted_except(Some(id)).updated(id, f)
        } else {
            self.updated(id, f)
        }
    }

    /// The first of the dependencies that is not an item of the list.
    pub open spec fn first_missing(self, depends_on: Seq<u32>) -> Option<u32>
        decreases depends_on.len(),
    {
        if depends_on.len() == 0 {
            None
        } else if !graph::has_id(self.items, depends_on.first()) {
            Some(depends_on.first())
        } else {
            self.first_missing(depends_on.drop_first())
        }
    }

    /// Why an item with these dependencies is refused, if it is.
    pub open spec fn refusal(self, depends_on: Seq<u32>) -> Option<Seq<char>> {
        match self.first_missing(depends_on) {
            Some(id) => Some(missing_dependency_message(id)),
            None => if graph::creates_cycle(self.items, self.next_id, depends_on) {
                Some(cycle_message())
            } else {
                None
            },
        }
    }

    /// The list after adding an item with dependencies. Without any it is ready
    /// at once, else it waits.
    pub open spec fn dag_added(
        self,
        content: Seq<char>,
        depends_on: Seq<u32>,
        at: Timestamp,
    ) -> TodoListView {
        let status = if depends_on.len() == 0 {
            TodoStatus::Ready
        } else {
            TodoStatus::Pending
        };
        self.pushed(content, status, depends_on, at)
    }

    /// Item `id` is in the list and completed.
    pub open spec fn is_completed(self, id: u32) -> bool {
        exists|j: int|
            0 <= j < self.items.len() && (#[trigger] self.items[j]).id == id
                && self.items[j].status == TodoStatus::Completed
    }

    /// All of the dependencies are completed.
    pub open spec fn all_completed(self, depends_on: Seq<u32>) -> bool {
        forall|k: int|
            0 <= k < depends_on.len() ==> self.is_completed(#[trigger] depends_on[k])
    }

    /// The list after item `id` has completed: the pending items that depend on
    /// it become ready if all their dependencies are completed.
    pub open spec fn released(self, id: u32) -> TodoListView {
        TodoListView {
            items: self.items.map_values(
                |it: TodoItemView|
                    if it.blocked_on(id) && self.all_completed(it.depends_on) {
                        it.with_status(TodoStatus::Ready)
                    } else {
                        it
                    },
            ),
            ..self
        }
    }

    /// The list after item `id` has failed: the pending items that depend on it
    /// are skipped.
    pub open spec fn skipped(self, id: u32, at: Seq<Timestamp>) -> TodoListView {
        TodoListView {
            items: self.items.map(
                |j: int, it: TodoItemView|
                    if it.blocked_on(id) {
                        it.skipped(id, at[j])
                    } else {
                        it
                    },
            ),
            ..self
        }
    }

    /// The list after a status report for item `id`, with what follows from it
    /// for the items that depend on it. Without an item `id` nothing changes.
    pub open spec fn dag_updated(
        self,
        id: u32,
        status: TodoStatus,
        result: Option<Seq<char>>,
        error: Option<Seq<char>>,
        times: DagTimes,
    ) -> TodoListView {
        let marked = self.updated(
            id,
            |it: TodoItemView| it.marked(status, result, error, times.beat, times.stamp),
        );
        if self.lookup(id) is None {
            self
        } else {
            match status {
                TodoStatus::Completed => marked.released(id),
                TodoStatus::Failed => marked.skipped(id, times.skips),
                _ => marked,
            }
        }
    }

    /// The list after a heartbeat of item `id` at the time `at`.
    pub open spec fn beaten(self, id: u32, at: Timestamp) -> TodoListView {
        self.updated(id, |it: TodoItemView| TodoItemView { heartbeat: Some(at), ..it })
    }

    /// The list after a heartbeat of item `id` at the time `at` that tells how far
    /// the work is: what it tells, if anything, stands as the result so far.
    pub open spec fn progressed(
        self,
        id: u32,
        progress: Option<Seq<char>>,
        at: Timestamp,
    ) -> TodoListView {
        self.updated(
            id,
            |it: TodoItemView|
                TodoItemView {
                    heartbeat: Some(at),
                    result: match progress {
                        Some(p) => if p.len() > 0 {
                            Some(progress_message(p))
                        } else {
                            it.result
                        },
                        None => it.result,
                    },
                    ..it
                },
        )
    }

    /// The list after a restart of item `id`.
    pub open spec fn restarted(self, id: u32) -> TodoListView {
        self.updated(
            id,
            |it: TodoItemView|
                TodoItemView { restart_count: (it.restart_count + 1) as u32, ..it },
        )
    }

    /// How many items are completed.
    pub open spec fn completed_count(self) -> nat {
        self.items.filter(TodoItemView::has_status(TodoStatus::Completed)).len()
    }

    /// The percentage of items that are completed, rounded half up; 0 for a list
    /// without items.
    pub open spec fn percentage(self) -> nat {
        if self.items.len() == 0 {
            0
        } else {
            (100 * self.completed_count() + self.items.len() / 2) / self.items.len()
        }
    }

    /// The id of the first item in progress.
    pub open spec fn in_progress(self) -> Option<u32> {
        let running = self.running();
        if running.len() == 0 {
            None
        } else {
            Some(running.first().id)
        }
    }

    /// The items in progress.
    pub open spec fn running(self) -> Seq<TodoItemView> {
        self.items.filter(TodoItemView::has_status(TodoStatus::InProgress))
    }

    /// Which items can be scheduled: those that are ready and whose dependencies
    /// are all completed.
    pub open spec fn schedulable(self) -> spec_fn(TodoItemView) -> bool {
        |it: TodoItemView| it.status == TodoStatus::Ready && self.all_completed(it.depends_on)
    }

    /// The items that can be scheduled.
    pub open spec fn ready(self) -> Seq<TodoItemView> {
        self.items.filter(self.schedulable())
    }

    /// What a snapshot of the list shows.
    pub open spec fn snapshot(self) -> TodoListSnapshotView {
        TodoListSnapshotView {
            items: self.items,
            completion_pct: self.percentage(),
            in_progress_id: self.in_progress(),
        }
    }

    /// Every item has reached a terminal status.
    pub open spec fn all_terminal(self) -> bool {
        forall|j: int|
            0 <= j < self.items.len() ==> status::terminal(
                (#[trigger] self.items[j]).status,
            )
    }
}

impl DagTimes {
    /// The readings are valid times, and there is one for each of `n` items.
    pub open spec fn valid(self, n: nat) -> bool {
        &&& self.beat.valid()
        &&& self.stamp.valid()
        &&& self.skips.len() == n
        &&& forall|j: int| 0 <= j < n ==> (#[trigger] self.skips[j]).valid()
    }
}

} // verus!
