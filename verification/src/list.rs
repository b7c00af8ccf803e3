//! The todo list and its operations.
use vstd::prelude::*;
use vstd::string::*;

use crate::clock::{now, Timestamp};
use crate::graph;
use crate::graph::{contains_id, find_item, reaches_item};
use crate::item;
use crate::item::{TodoItem, TodoItemView, TodoListSnapshot};
use crate::lemmas;
use crate::model::{DagTimes, TodoListView};
use crate::status;
use crate::status::TodoStatus;
use crate::text::decimal_text;

verus! {

/// Mutable list of todo items with helper operations.
#[derive(Debug)]
pub struct TodoList {
    items: Vec<TodoItem>,
    next_id: u32,
}

impl View for TodoList {
    type V = TodoListView;

    closed spec fn view(&self) -> TodoListView {
        TodoListView { items: item::item_views(self.items@), next_id: self.next_id }
    }
}

/// The values behind references to items.
pub open spec fn ref_views(items: Seq<&TodoItem>) -> Seq<TodoItemView> {
    items.map_values(|it: &TodoItem| it@)
}

impl Default for TodoList {
    /// A list without items whose first item will have the id 0.
    fn default() -> (r: Self)
        ensures
            r@ == (TodoListView { items: Seq::empty(), next_id: 0 }),
            r.wf(),
    {
        let r = TodoList { items: Vec::new(), next_id: 0 };
        assert(r@.items =~= Seq::<TodoItemView>::empty());
        r
    }
}

impl Clone for TodoList {
    fn clone(&self) -> (r: Self)
        ensures
            r@ == self@,
    {
        TodoList { items: item::clone_items(&self.items), next_id: self.next_id }
    }
}

impl TodoList {
    /// The list is as its operations leave it.
    pub open spec fn wf(&self) -> bool {
        self@.wf()
    }

    /// Create an empty todo list.
    #[must_use]
    pub fn new() -> (r: Self)
        ensures
            r@ == TodoListView::empty(),
            r.wf(),
    {
        let r = TodoList { items: Vec::new(), next_id: 1 };
        assert(r@.items =~= Seq::<TodoItemView>::empty());
        r
    }

    /// The items, in the order in which they were added.
    #[must_use]
    pub fn items(&self) -> (r: &Vec<TodoItem>)
        ensures
            item::item_views(r@) == self@.items,
    {
        &self.items
    }

    /// Whether another item can still be numbered.
    #[must_use]
    pub fn has_room(&self) -> (r: bool)
        ensures
            r == self@.has_room(),
    {
        self.next_id < u32::MAX
    }

    /// Return a snapshot of the list with computed metrics.
    #[must_use]
    pub fn snapshot(&self) -> (r: TodoListSnapshot)
        ensures
            r@ == self@.snapshot(),
    {
        TodoListSnapshot {
            items: item::clone_items(&self.items),
            completion_pct: self.completion_percentage(),
            in_progress_id: self.in_progress_id(),
        }
    }

    /// Appends a new item.
    fn push_item(
        &mut self,
        content: String,
        status: TodoStatus,
        depends_on: Vec<u32>,
        at: Timestamp,
    )
        requires
            old(self).wf(),
            old(self)@.has_room(),
            forall|k: int|
                0 <= k < depends_on@.len() ==> old(self)@.first_id()
                    <= #[trigger] depends_on@[k] < old(self)@.next_id,
        ensures
            final(self)@ == old(self)@.pushed(content@, status, depends_on@, at),
            final(self).wf(),
    {
        let ghost before = self@;
        let ghost deps = depends_on@;
        let item = TodoItem {
            id: self.next_id,
            content,
            status,
            depends_on,
            created_at: Some(at),
            started_at: None,
            completed_at: None,
            heartbeat: None,
            result: None,
            error: None,
            restart_count: 0,
        };
        self.items.push(item);
        self.next_id += 1;
        proof {
            let after = before.pushed(content@, status, deps, at);
            assert(self@.items =~= after.items);
            assert forall|j: int, k: int|
                0 <= j < after.items.len() && 0 <= k
                    < after.items[j].depends_on.len() implies after.first_id()
                <= #[trigger] after.items[j].depends_on[k] < after.items[j].id by {
                if j < before.items.len() {
                    assert(before.items[j].depends_on[k] == after.items[j].depends_on[k]);
                } else {
                    assert(deps[k] == after.items[j].depends_on[k]);
                }
            }
        }
    }

    /// Adds a new todo item that is created at the time `at`. If it is in
    /// progress, no other item stays so.
    pub fn add_at(&mut self, content: String, status: TodoStatus, at: Timestamp) -> (r: TodoItem)
        requires
            old(self).wf(),
            old(self)@.has_room(),
        ensures
            final(self)@ == old(self)@.added(content@, status, at),
            r@ == final(self)@.items.last(),
            final(self).wf(),
    {
        if status == TodoStatus::InProgress {
            self.set_single_in_progress(None);
        }
        self.push_item(content, status, Vec::new(), at);
        let last = self.items.len() - 1;
        self.items[last].clone()
    }

    /// Add a new todo item.
    pub fn add(&mut self, content: String, status: TodoStatus) -> (r: TodoItem)
        requires
            old(self).wf(),
            old(self)@.has_room(),
        ensures
            exists|at: Timestamp|
                at.valid() && final(self)@ == #[trigger] old(self)@.added(content@, status, at),
            r@ == final(self)@.items.last(),
            final(self).wf(),
    {
        self.add_at(content, status, now())
    }

    /// Update an item's status by id. If it becomes in progress, no other item
    /// stays so.
    pub fn update_status(&mut self, id: u32, status: TodoStatus) -> (r: Option<TodoItem>)
        requires
            old(self).wf(),
        ensures
            final(self)@ == old(self)@.status_updated(id, status),
            match r {
                Some(item) => final(self)@.lookup(id) == Some(item@),
                None => old(self)@.lookup(id) is None,
            },
            final(self).wf(),
    {
        let ghost before = self@;
        if status == TodoStatus::InProgress {
            self.set_single_in_progress(Some(id));
        }
        let ghost demoted = self@;
        let ghost after = before.status_updated(id, status);
        proof {
            lemmas::lemma_ids(demoted, id);
            lemmas::lemma_ids(before, id);
        }
        match find_item(&self.items, id) {
            Some(index) => {
                let item = &mut self.items[index];
                item.status = status;
                proof {
                    assert(demoted.items[index as int].id == id);
                    assert(self@.items =~= after.items);
                    lemmas::lemma_same_shape(before, self@);
                }
                Some(self.items[index].clone())
            },
            None => {
                assert(self@.items =~= after.items);
                None
            },
        }
    }

    /// Compute completion percentage for the list.
    #[must_use]
    pub fn completion_percentage(&self) -> (r: u8)
        ensures
            r == self@.percentage(),
    {
        if self.items.is_empty() {
            return 0;
        }
        let ghost vs = self@.items;
        let ghost done = TodoItemView::has_status(TodoStatus::Completed);
        let total = self.items.len();
        let mut completed: usize = 0;
        let mut i: usize = 0;
        while i < total
            invariant
                i <= total,
                total == self.items@.len(),
                vs == self@.items,
                done == TodoItemView::has_status(TodoStatus::Completed),
                completed == vs.take(i as int).filter(done).len(),
                completed <= i,
            decreases total - i,
        {
            proof {
                lemmas::lemma_filter_step(vs, done, i as int);
                assert(self.items@[i as int]@ == vs[i as int]);
            }
            if self.items[i].status == TodoStatus::Completed {
                completed += 1;
            }
            i += 1;
        }
        proof {
            assert(vs.take(total as int) =~= vs);
            lemmas::lemma_percentage_bound(completed as int, total as int);
        }
        let percent: u128 = (completed as u128 * 100 + (total / 2) as u128) / total as u128;
        percent as u8
    }

    /// Return the id of the in-progress item, if any.
    #[must_use]
    pub fn in_progress_id(&self) -> (r: Option<u32>)
        ensures
            r == self@.in_progress(),
    {
        let ghost vs = self@.items;
        let ghost running = TodoItemView::has_status(TodoStatus::InProgress);
        let mut i: usize = 0;
        proof {
            reveal(Seq::filter);
        }
        while i < self.items.len()
            invariant
                i <= self.items@.len(),
                vs == self@.items,
                running == TodoItemView::has_status(TodoStatus::InProgress),
                vs.take(i as int).filter(running).len() == 0,
            decreases self.items@.len() - i,
        {
            proof {
                lemmas::lemma_filter_step(vs, running, i as int);
                assert(self.items@[i as int]@ == vs[i as int]);
            }
            if self.items[i].status == TodoStatus::InProgress {
                proof {
                    let head = vs.take(i + 1);
                    let tail = vs.skip(i + 1);
                    Seq::filter_distributes_over_add(head, tail, running);
                    assert(head + tail =~= vs);
                    assert(vs.filter(running)[0] == head.filter(running)[0]);
                }
                return Some(self.items[i].id);
            }
            i += 1;
        }
        assert(vs.take(vs.len() as int) =~= vs);
        None
    }

    /// Clear all todo items.
    pub fn clear(&mut self)
        ensures
            final(self)@ == TodoListView::empty(),
            final(self).wf(),
    {
        self.items.clear();
        self.next_id = 1;
        assert(self@.items =~= Seq::<TodoItemView>::empty());
    }

    /// Puts the items in progress back to pending, but the item `allow_id`.
    fn set_single_in_progress(&mut self, allow_id: Option<u32>)
        requires
            old(self).wf(),
        ensures
            final(self)@ == old(self)@.demoted_except(allow_id),
            final(self).wf(),
    {
        let ghost before = self@;
        let mut i: usize = 0;
        while i < self.items.len()
            invariant
                i <= self.items@.len(),
                self.next_id == before.next_id,
                self.items@.len() == before.items.len(),
                forall|j: int|
                    i <= j < self.items@.len() ==> (#[trigger] self.items@[j])@ == before.items[j],
                forall|j: int|
                    0 <= j < i ==> (#[trigger] self.items@[j])@ == before.demoted_except(
                        allow_id,
                    ).items[j],
            decreases self.items@.len() - i,
        {
            let kept = match allow_id {
                Some(id) => self.items[i].id == id,
                None => false,
            };
            if !kept && self.items[i].status == TodoStatus::InProgress {
                let item = &mut self.items[i];
                item.status = TodoStatus::Pending;
            }
            i += 1;
        }
        assert(self@ =~= before.demoted_except(allow_id));
        proof {
            lemmas::lemma_same_shape(before, self@);
        }
    }

    /// Checks that an item with these dependencies can be added: that they are
    /// items of the list and that no cycle would arise. Else says what is wrong.
    pub fn check_dependencies(&self, depends_on: &Vec<u32>) -> (r: Result<(), String>)
        requires
            self.wf(),
        ensures
            match self@.refusal(depends_on@) {
                Some(message) => r matches Err(e) && e@ == message,
                None => r is Ok,
            },
    {
        let mut k: usize = 0;
        while k < depends_on.len()
            invariant
                k <= depends_on@.len(),
                forall|i: int|
                    0 <= i < k ==> graph::has_id(self@.items, #[trigger] depends_on@[i]),
            decreases depends_on@.len() - k,
        {
            let dep = depends_on[k];
            if find_item(&self.items, dep).is_none() {
                proof {
                    lemmas::lemma_first_missing(self@, depends_on@, k as int);
                    assert(depends_on@.skip(k as int).first() == dep);
                }
                let mut message = String::from_str("Dependency item #");
                message.append(decimal_text(dep as u64).as_str());
                message.append(" does not exist");
                return Err(message);
            }
            k += 1;
        }
        proof {
            lemmas::lemma_first_missing(self@, depends_on@, depends_on@.len() as int);
            assert(depends_on@.skip(depends_on@.len() as int).len() == 0);
        }
        if self.would_create_cycle(self.next_id, depends_on) {
            return Err(String::from_str("Adding this item would create a cycle"));
        }
        Ok(())
    }

    /// Adds a DAG-aware item that is created at the time `at`.
    pub fn add_dag_item_at(
        &mut self,
        content: String,
        depends_on: Vec<u32>,
        at: Timestamp,
    ) -> (r: Result<u32, String>)
        requires
            old(self).wf(),
            old(self)@.refusal(depends_on@) is None ==> old(self)@.has_room(),
        ensures
            match old(self)@.refusal(depends_on@) {
                Some(message) => r matches Err(e) && e@ == message && final(self)@ == old(self)@,
                None => r == Ok::<u32, String>(old(self)@.next_id) && final(self)@ == old(
                    self,
                )@.dag_added(content@, depends_on@, at),
            },
            final(self).wf(),
    {
        let ghost before = self@;
        match self.check_dependencies(&depends_on) {
            Ok(_) => {},
            Err(message) => {
                return Err(message);
            },
        }
        let new_id = self.next_id;
        let status = if depends_on.is_empty() {
            TodoStatus::Ready
        } else {
            TodoStatus::Pending
        };
        proof {
            assert forall|i: int| 0 <= i < depends_on@.len() implies before.first_id()
                <= #[trigger] depends_on@[i] < before.next_id by {
                lemmas::lemma_none_missing(before, depends_on@, i);
                lemmas::lemma_ids(before, depends_on@[i]);
            }
        }
        self.push_item(content, status, depends_on, at);
        Ok(new_id)
    }

    /// Add a DAG-aware item with dependency tracking.
    ///
    /// Items with empty `depends_on` are immediately `Ready`; others start as
    /// `Pending` and transition to `Ready` once all dependencies complete.
    pub fn add_dag_item(
        &mut self,
        content: String,
        depends_on: Vec<u32>,
    ) -> (r: Result<u32, String>)
        requires
            old(self).wf(),
            old(self)@.refusal(depends_on@) is None ==> old(self)@.has_room(),
        ensures
            match old(self)@.refusal(depends_on@) {
                Some(message) => r matches Err(e) && e@ == message && final(self)@ == old(self)@,
                None => r == Ok::<u32, String>(old(self)@.next_id) && exists|at: Timestamp|
                    at.valid() && final(self)@ == #[trigger] old(self)@.dag_added(
                        content@,
                        depends_on@,
                        at,
                    ),
            },
            final(self).wf(),
    {
        self.add_dag_item_at(content, depends_on, now())
    }

    /// Return items whose dependencies are all `Completed` and whose own status
    /// is `Ready` (i.e. ready to schedule).
    #[must_use]
    pub fn get_ready_items(&self) -> (r: Vec<&TodoItem>)
        ensures
            ref_views(r@) == self@.ready(),
    {
        let ghost vs = self@.items;
        let ghost p = self@.schedulable();
        let mut r: Vec<&TodoItem> = Vec::new();
        let mut i: usize = 0;
        proof {
            reveal(Seq::filter);
            assert(ref_views(r@) =~= vs.take(0).filter(p));
        }
        while i < self.items.len()
            invariant
                i <= self.items@.len(),
                vs == self@.items,
                p == self@.schedulable(),
                ref_views(r@) == vs.take(i as int).filter(p),
            decreases self.items@.len() - i,
        {
            let item = &self.items[i];
            proof {
                lemmas::lemma_filter_step(vs, p, i as int);
                assert(item@ == vs[i as int]);
            }
            let ghost r0 = r@;
            if item.status == TodoStatus::Ready && self.all_completed(&item.depends_on) {
                r.push(item);
                assert(ref_views(r@) =~= ref_views(r0).push(item@));
            }
            i += 1;
        }
        assert(vs.take(vs.len() as int) =~= vs);
        r
    }

    /// Items currently in `InProgress` status.
    #[must_use]
    pub fn get_running_items(&self) -> (r: Vec<&TodoItem>)
        ensures
            ref_views(r@) == self@.running(),
    {
        let ghost vs = self@.items;
        let ghost p = TodoItemView::has_status(TodoStatus::InProgress);
        let mut r: Vec<&TodoItem> = Vec::new();
        let mut i: usize = 0;
        proof {
            reveal(Seq::filter);
            assert(ref_views(r@) =~= vs.take(0).filter(p));
        }
        while i < self.items.len()
            invariant
                i <= self.items@.len(),
                vs == self@.items,
                p == TodoItemView::has_status(TodoStatus::InProgress),
                ref_views(r@) == vs.take(i as int).filter(p),
            decreases self.items@.len() - i,
        {
            let item = &self.items[i];
            proof {
                lemmas::lemma_filter_step(vs, p, i as int);
                assert(item@ == vs[i as int]);
            }
            let ghost r0 = r@;
            if item.status == TodoStatus::InProgress {
                r.push(item);
                assert(ref_views(r@) =~= ref_views(r0).push(item@));
            }
            i += 1;
        }
        assert(vs.take(vs.len() as int) =~= vs);
        r
    }

    /// Check whether adding an item with the given `depends_on` would create a
    /// cycle, by a breadth-first search from each dependency.
    #[must_use]
    pub fn would_create_cycle(&self, new_id: u32, depends_on: &Vec<u32>) -> (r: bool)
        requires
            self.wf(),
        ensures
            r == graph::creates_cycle(self@.items, new_id, depends_on@),
    {
        proof {
            lemmas::lemma_ids(self@, new_id);
        }
        let mut k: usize = 0;
        while k < depends_on.len()
            invariant
                k <= depends_on@.len(),
                graph::distinct_ids(self@.items),
                forall|i: int|
                    0 <= i < k ==> !graph::reaches(
                        self@.items,
                        #[trigger] depends_on@[i],
                        new_id,
                    ),
            decreases depends_on@.len() - k,
        {
            if reaches_item(&self.items, depends_on[k], new_id) {
                return true;
            }
            k += 1;
        }
        false
    }

    /// All items are in a terminal state (`Completed`, `Failed`, `Skipped`).
    #[must_use]
    pub fn is_all_terminal(&self) -> (r: bool)
        ensures
            r == self@.all_terminal(),
    {
        let mut i: usize = 0;
        while i < self.items.len()
            invariant
                i <= self.items@.len(),
                forall|j: int|
                    0 <= j < i ==> status::terminal((#[trigger] self@.items[j]).status),
            decreases self.items@.len() - i,
        {
            assert(self.items@[i as int]@ == self@.items[i as int]);
            if !self.items[i].status.is_terminal() {
                return false;
            }
            i += 1;
        }
        true
    }

    /// Sets the heartbeat of the given item to the time `at`.
    pub fn update_heartbeat_at(&mut self, item_id: u32, at: Timestamp)
        requires
            old(self).wf(),
        ensures
            final(self)@ == old(self)@.beaten(item_id, at),
            final(self).wf(),
    {
        let ghost before = self@;
        let ghost after = before.beaten(item_id, at);
        match find_item(&self.items, item_id) {
            Some(index) => {
                let item = &mut self.items[index];
                item.heartbeat = Some(at);
                proof {
                    assert(before.items[index as int].id == item_id);
                    assert(self@.items =~= after.items);
                    lemmas::lemma_same_shape(before, self@);
                }
            },
            None => {
                assert(self@.items =~= after.items);
            },
        }
    }

    /// Bump the heartbeat for the given item.
    pub fn update_heartbeat(&mut self, item_id: u32)
        requires
            old(self).wf(),
        ensures
            exists|at: Timestamp|
                at.valid() && final(self)@ == #[trigger] old(self)@.beaten(item_id, at),
            final(self).wf(),
    {
        self.update_heartbeat_at(item_id, now())
    }

    /// Sets the heartbeat of the given item to the time `at`, and its result to
    /// the progress that it reports, if that is not empty.
    pub fn record_progress_at(&mut self, item_id: u32, progress: &Option<String>, at: Timestamp)
        requires
            old(self).wf(),
        ensures
            final(self)@ == old(self)@.progressed(item_id, item::text_view(*progress), at),
            final(self).wf(),
    {
        let ghost before = self@;
        let ghost after = before.progressed(item_id, item::text_view(*progress), at);
        match find_item(&self.items, item_id) {
            Some(index) => {
                let item = &mut self.items[index];
                item.heartbeat = Some(at);
                if let Some(text) = progress {
                    if !text.as_str().is_empty() {
                        let mut message = String::from_str("[progress] ");
                        message.append(text.as_str());
                        item.result = Some(message);
                    }
                }
                proof {
                    assert(before.items[index as int].id == item_id);
                    assert(self@.items =~= after.items);
                    lemmas::lemma_same_shape(before, self@);
                }
            },
            None => {
                assert(self@.items =~= after.items);
            },
        }
    }

    /// Bump the heartbeat for the given item and keep the progress that it reports,
    /// if that is not empty.
    pub fn record_progress(&mut self, item_id: u32, progress: &Option<String>)
        requires
            old(self).wf(),
        ensures
            exists|at: Timestamp|
                at.valid() && final(self)@ == #[trigger] old(self)@.progressed(
                    item_id,
                    item::text_view(*progress),
                    at,
                ),
            final(self).wf(),
    {
        self.record_progress_at(item_id, progress, now())
    }

    /// Increment the restart counter for the given item.
    pub fn increment_restart(&mut self, item_id: u32)
        requires
            old(self).wf(),
            old(self)@.lookup(item_id) matches Some(it) ==> it.restart_count < u32::MAX,
        ensures
            final(self)@ == old(self)@.restarted(item_id),
            final(self).wf(),
    {
        let ghost before = self@;
        let ghost after = before.restarted(item_id);
        match find_item(&self.items, item_id) {
            Some(index) => {
                proof {
                    assert(before.items[index as int].id == item_id);
                    lemmas::lemma_ids(before, item_id);
                }
                let item = &mut self.items[index];
                item.restart_count += 1;
                proof {
                    assert(self@.items =~= after.items);
                    lemmas::lemma_same_shape(before, self@);
                }
            },
            None => {
                assert(self@.items =~= after.items);
            },
        }
    }

    /// Whether item `id` is in the list and completed.
    fn is_completed(&self, id: u32) -> (r: bool)
        ensures
            r == self@.is_completed(id),
    {
        let mut i: usize = 0;
        while i < self.items.len()
            invariant
                i <= self.items@.len(),
                forall|j: int|
                    0 <= j < i ==> !((#[trigger] self.items@[j]).id == id
                        && self.items@[j].status == TodoStatus::Completed),
            decreases self.items@.len() - i,
        {
            if self.items[i].id == id && self.items[i].status == TodoStatus::Completed {
                assert(self@.items[i as int].id == id);
                return true;
            }
            i += 1;
        }
        assert forall|j: int| 0 <= j < self@.items.len() implies !((
        #[trigger] self@.items[j]).id == id && self@.items[j].status == TodoStatus::Completed) by {
            assert(self.items@[j]@ == self@.items[j]);
        }
        false
    }

    /// Whether all of the dependencies are completed.
    fn all_completed(&self, depends_on: &Vec<u32>) -> (r: bool)
        ensures
            r == self@.all_completed(depends_on@),
    {
        let mut k: usize = 0;
        while k < depends_on.len()
            invariant
                k <= depends_on@.len(),
                forall|i: int| 0 <= i < k ==> self@.is_completed(#[trigger] depends_on@[i]),
            decreases depends_on@.len() - k,
        {
            if !self.is_completed(depends_on[k]) {
                return false;
            }
            k += 1;
        }
        true
    }

    /// Makes the pending items that depend on item `id` ready, if all their
    /// dependencies are completed.
    fn release_dependents(&mut self, id: u32)
        requires
            old(self).wf(),
        ensures
            final(self)@ == old(self)@.released(id),
            final(self).wf(),
    {
        let ghost before = self@;
        let mut free: Vec<bool> = Vec::new();
        let mut i: usize = 0;
        while i < self.items.len()
            invariant
                i <= self.items@.len(),
                self@ == before,
                free@.len() == i,
                forall|j: int|
                    0 <= j < i ==> #[trigger] free@[j] == (before.items[j].blocked_on(id)
                        && before.all_completed(before.items[j].depends_on)),
            decreases self.items@.len() - i,
        {
            let blocked = self.items[i].status == TodoStatus::Pending && contains_id(
                &self.items[i].depends_on,
                id,
            );
            assert(self.items@[i as int]@ == before.items[i as int]);
            let ready = blocked && self.all_completed(&self.items[i].depends_on);
            free.push(ready);
            i += 1;
        }
        let mut i: usize = 0;
        while i < self.items.len()
            invariant
                i <= self.items@.len(),
                self.next_id == before.next_id,
                self.items@.len() == before.items.len(),
                free@.len() == before.items.len(),
                forall|j: int|
                    0 <= j < before.items.len() ==> #[trigger] free@[j] == (
                    before.items[j].blocked_on(id) && before.all_completed(
                        before.items[j].depends_on,
                    )),
                forall|j: int|
                    i <= j < self.items@.len() ==> (#[trigger] self.items@[j])@ == before.items[j],
                forall|j: int|
                    0 <= j < i ==> (#[trigger] self.items@[j])@ == before.released(id).items[j],
            decreases self.items@.len() - i,
        {
            if free[i] {
                let item = &mut self.items[i];
                item.status = TodoStatus::Ready;
            }
            i += 1;
        }
        assert(self@ =~= before.released(id));
        proof {
            lemmas::lemma_same_shape(before, self@);
        }
    }

    /// Skips the pending items that depend on item `id`, each at its time.
    fn skip_dependents(&mut self, id: u32, at: &Vec<Timestamp>)
        requires
            old(self).wf(),
            at@.len() == old(self)@.items.len(),
        ensures
            final(self)@ == old(self)@.skipped(id, at@),
            final(self).wf(),
    {
        let ghost before = self@;
        let mut i: usize = 0;
        while i < self.items.len()
            invariant
                i <= self.items@.len(),
                self.next_id == before.next_id,
                self.items@.len() == before.items.len(),
                at@.len() == before.items.len(),
                forall|j: int|
                    i <= j < self.items@.len() ==> (#[trigger] self.items@[j])@ == before.items[j],
                forall|j: int|
                    0 <= j < i ==> (#[trigger] self.items@[j])@ == before.skipped(id, at@).items[j],
            decreases self.items@.len() - i,
        {
            assert(self.items@[i as int]@ == before.items[i as int]);
            if self.items[i].status == TodoStatus::Pending && contains_id(
                &self.items[i].depends_on,
                id,
            ) {
                self.items[i].skip(id, at[i]);
            }
            i += 1;
        }
        assert(self@ =~= before.skipped(id, at@));
        proof {
            lemmas::lemma_same_shape(before, self@);
        }
    }

    /// Updates an item's status and propagates downstream transitions, with
    /// given clock readings: `beat` for the heartbeat, `stamp` for the start or
    /// completion of the item, `skips[j]` for the completion of the `j`th item
    /// of the list if it is skipped.
    pub fn update_dag_status_at(
        &mut self,
        item_id: u32,
        new_status: TodoStatus,
        result: Option<String>,
        error: Option<String>,
        beat: Timestamp,
        stamp: Timestamp,
        skips: &Vec<Timestamp>,
    )
        requires
            old(self).wf(),
            new_status == TodoStatus::Failed ==> skips@.len() == old(self)@.items.len(),
        ensures
            final(self)@ == old(self)@.dag_updated(
                item_id,
                new_status,
                item::text_view(result),
                item::text_view(error),
                (DagTimes { beat, stamp, skips: skips@ }),
            ),
            final(self).wf(),
    {
        let ghost before = self@;
        let ghost result_view = item::text_view(result);
        let ghost error_view = item::text_view(error);
        let index = match find_item(&self.items, item_id) {
            Some(i) => i,
            None => {
                proof {
                    lemmas::lemma_ids(before, item_id);
                }
                return ;
            },
        };
        self.items[index].record_status(new_status, result, error, beat, stamp);
        let ghost marked = before.updated(
            item_id,
            |it: TodoItemView| it.marked(new_status, result_view, error_view, beat, stamp),
        );
        proof {
            assert(before.items[index as int].id == item_id);
            assert(self@ =~= marked);
            lemmas::lemma_same_shape(before, self@);
        }
        match new_status {
            TodoStatus::Completed => {
                self.release_dependents(item_id);
            },
            TodoStatus::Failed => {
                self.skip_dependents(item_id, skips);
            },
            _ => {},
        }
    }

    /// Update an item's status and propagate downstream transitions.
    ///
    /// On `Completed`: downstream items whose *all* dependencies are now
    /// `Completed` transition from `Pending` to `Ready`.
    ///
    /// On `Failed`: pending downstream items that depend on this item move to
    /// `Skipped`.
    ///
    /// On `Skipped`: a given error is kept; downstream items stay as they are.
    pub fn update_dag_status(
        &mut self,
        item_id: u32,
        new_status: TodoStatus,
        result: Option<String>,
        error: Option<String>,
    )
        requires
            old(self).wf(),
        ensures
            exists|times: DagTimes|
                times.valid(old(self)@.items.len()) && final(self)@ == #[trigger] old(
                    self,
                )@.dag_updated(
                    item_id,
                    new_status,
                    item::text_view(result),
                    item::text_view(error),
                    times,
                ),
            final(self).wf(),
    {
        let ghost before = self@;
        let ghost result_view = item::text_view(result);
        let ghost error_view = item::text_view(error);
        let beat = now();
        let stamp = now();
        let mut skips: Vec<Timestamp> = Vec::new();
        if new_status == TodoStatus::Failed {
            let mut i: usize = 0;
            while i < self.items.len()
                invariant
                    i <= self.items@.len(),
                    skips@.len() == i,
                    beat.valid(),
                    forall|j: int| 0 <= j < i ==> (#[trigger] skips@[j]).valid(),
                decreases self.items@.len() - i,
            {
                if self.items[i].status == TodoStatus::Pending && contains_id(
                    &self.items[i].depends_on,
                    item_id,
                ) {
                    skips.push(now());
                } else {
                    skips.push(beat);
                }
                i += 1;
            }
        }
        self.update_dag_status_at(item_id, new_status, result, error, beat, stamp, &skips);
        proof {
            let given = DagTimes { beat, stamp, skips: skips@ };
            let times = if new_status == TodoStatus::Failed {
                given
            } else {
                DagTimes { beat, stamp, skips: Seq::new(before.items.len(), |j: int| beat) }
            };
            assert(times.valid(before.items.len()));
            assert(before.dag_updated(item_id, new_status, result_view, error_view, times)
                =~= before.dag_updated(item_id, new_status, result_view, error_view, given));
        }
    }
}

} // verus!
