//! What each operation of the list does to each item, field by field, and what
//! each question about the list is answered by.
use vstd::prelude::*;

use crate::clock::Timestamp;
use crate::graph;
use crate::item;
use crate::item::{TodoItem, TodoItemView, TodoListSnapshot};
use crate::lemmas;
use crate::list;
use crate::model::{DagTimes, TodoListView};
use crate::status;
use crate::status::TodoStatus;
use crate::text;

verus! {

/// A list starts without items, and its first item gets the id 1.
pub proof fn law_empty_list()
    ensures
        TodoListView::empty().items.len() == 0,
        TodoListView::empty().next_id == 1,
        TodoListView::empty().has_room(),
        TodoListView::empty().percentage() == 0,
        TodoListView::empty().in_progress() is None,
        TodoListView::empty().all_terminal(),
        TodoListView::empty().running().len() == 0,
        TodoListView::empty().ready().len() == 0,
{
    reveal(Seq::filter);
}

/// There is room for another item as long as the id after its own can be
/// written.
pub proof fn law_room(l: TodoListView)
    ensures
        l.has_room() <==> l.next_id + 1 <= u32::MAX,
{
}

/// An item is found by its id, and by no other.
pub proof fn law_lookup(l: TodoListView, id: u32)
    requires
        l.wf(),
    ensures
        forall|j: int|
            0 <= j < l.items.len() && (#[trigger] l.items[j]).id == id ==> l.lookup(id) == Some(
                l.items[j],
            ),
        (forall|j: int| 0 <= j < l.items.len() ==> (#[trigger] l.items[j]).id != id)
            ==> l.lookup(id) is None,
        graph::has_id(l.items, id) <==> exists|j: int|
            0 <= j < l.items.len() && (#[trigger] l.items[j]).id == id,
{
    lemmas::lemma_ids(l, id);
    if l.lookup(id) is Some {
        assert(l.items[id - l.first_id()].id == id);
    }
}

/// Adding a flat item appends it with the next id, the given content and status,
/// no dependencies and nothing done yet. If it is in progress, those that were
/// so are pending again; nothing else changes in the items before it.
pub proof fn law_add(l: TodoListView, content: Seq<char>, status: TodoStatus, at: Timestamp)
    requires
        l.next_id < u32::MAX,
    ensures
        ({
            let after = l.added(content, status, at);
            let new = after.items[l.items.len() as int];
            &&& after.items.len() == l.items.len() + 1
            &&& after.next_id == l.next_id + 1
            &&& new.id == l.next_id
            &&& new.content == content
            &&& new.status == status
            &&& new.depends_on.len() == 0
            &&& new.created_at == Some(at)
            &&& new.started_at is None
            &&& new.completed_at is None
            &&& new.heartbeat is None
            &&& new.result is None
            &&& new.error is None
            &&& new.restart_count == 0
        }),
        forall|j: int|
            0 <= j < l.items.len() ==> {
                let it = #[trigger] l.added(content, status, at).items[j];
                if status == TodoStatus::InProgress && l.items[j].status
                    == TodoStatus::InProgress {
                    it == (TodoItemView { status: TodoStatus::Pending, ..l.items[j] })
                } else {
                    it == l.items[j]
                }
            },
{
}

/// Adding an item with dependencies appends it with the next id, the given content
/// and dependencies and nothing done yet: ready if it has no dependencies, pending
/// if it has any, whatever the state of the others. The items before it stay as
/// they are.
pub proof fn law_add_with_dependencies(
    l: TodoListView,
    content: Seq<char>,
    depends_on: Seq<u32>,
    at: Timestamp,
)
    requires
        l.next_id < u32::MAX,
    ensures
        ({
            let after = l.dag_added(content, depends_on, at);
            let new = after.items[l.items.len() as int];
            &&& after.items.len() == l.items.len() + 1
            &&& after.next_id == l.next_id + 1
            &&& depends_on.len() == 0 ==> new.status == TodoStatus::Ready
            &&& depends_on.len() > 0 ==> new.status == TodoStatus::Pending
            &&& new.id == l.next_id
            &&& new.content == content
            &&& new.depends_on == depends_on
            &&& new.created_at == Some(at)
            &&& new.started_at is None
            &&& new.completed_at is None
            &&& new.heartbeat is None
            &&& new.result is None
            &&& new.error is None
            &&& new.restart_count == 0
        }),
        forall|j: int|
            0 <= j < l.items.len() ==> #[trigger] l.dag_added(content, depends_on, at).items[j]
                == l.items[j],
{
}

/// An item is refused just if some dependency is not the id of an item, and the
/// message names the first such one.
pub proof fn law_refusal(l: TodoListView, depends_on: Seq<u32>)
    requires
        l.wf(),
    ensures
        (forall|k: int|
            0 <= k < depends_on.len() ==> exists|j: int|
                0 <= j < l.items.len() && (#[trigger] l.items[j]).id == #[trigger] depends_on[k])
            ==> l.refusal(depends_on) is None,
        forall|k: int|
            0 <= k < depends_on.len() && (forall|j: int|
                0 <= j < l.items.len() ==> (#[trigger] l.items[j]).id != depends_on[k]) && (forall|
                i: int,
            |
                0 <= i < k ==> exists|j: int|
                    0 <= j < l.items.len() && (#[trigger] l.items[j]).id
                        == #[trigger] depends_on[i]) ==> l.refusal(depends_on) == Some(
                "Dependency item #"@ + text::decimal((#[trigger] depends_on[k]) as nat)
                    + " does not exist"@,
            ),
{
    crate::laws::law_refused_only_for_missing(l, depends_on);
    if forall|k: int|
        0 <= k < depends_on.len() ==> exists|j: int|
            0 <= j < l.items.len() && (#[trigger] l.items[j]).id == #[trigger] depends_on[k] {
        assert forall|k: int| 0 <= k < depends_on.len() implies graph::has_id(
            l.items,
            #[trigger] depends_on[k],
        ) by {}
    }
    assert forall|k: int|
        0 <= k < depends_on.len() && (forall|j: int|
            0 <= j < l.items.len() ==> (#[trigger] l.items[j]).id != depends_on[k]) && (forall|
            i: int,
        |
            0 <= i < k ==> exists|j: int|
                0 <= j < l.items.len() && (#[trigger] l.items[j]).id
                    == #[trigger] depends_on[i]) implies l.refusal(depends_on) == Some(
        "Dependency item #"@ + text::decimal((#[trigger] depends_on[k]) as nat)
            + " does not exist"@,
    ) by {
        assert forall|i: int| 0 <= i < k implies graph::has_id(
            l.items,
            #[trigger] depends_on[i],
        ) by {}
        lemmas::lemma_first_missing(l, depends_on, k);
        assert(depends_on.skip(k).first() == depends_on[k]);
        assert(!graph::has_id(l.items, depends_on[k]));
    }
}

/// Setting a status flatly changes the status of that item alone; if it is in
/// progress, the others that were so are pending again.
pub proof fn law_set_status(l: TodoListView, id: u32, status: TodoStatus)
    ensures
        l.status_updated(id, status).items.len() == l.items.len(),
        l.status_updated(id, status).next_id == l.next_id,
        forall|j: int|
            0 <= j < l.items.len() ==> {
                let it = #[trigger] l.status_updated(id, status).items[j];
                if l.items[j].id == id {
                    it == (TodoItemView { status, ..l.items[j] })
                } else if status == TodoStatus::InProgress && l.items[j].status
                    == TodoStatus::InProgress {
                    it == (TodoItemView { status: TodoStatus::Pending, ..l.items[j] })
                } else {
                    it == l.items[j]
                }
            },
{
}

/// A report on an item gives it the reported status and a heartbeat. Being in
/// progress stamps its start, a terminal status its end. The result is that of a
/// completion; the error is that of a failure, or of a skip that gives one. The
/// rest of the item stays.
pub proof fn law_report(
    l: TodoListView,
    id: u32,
    status: TodoStatus,
    result: Option<Seq<char>>,
    error: Option<Seq<char>>,
    times: DagTimes,
    j: int,
)
    requires
        l.wf(),
        0 <= j < l.items.len(),
        l.items[j].id == id,
    ensures
        ({
            let it = l.dag_updated(id, status, result, error, times).items[j];
            &&& it.status == status
            &&& it.heartbeat == Some(times.beat)
            &&& status == TodoStatus::InProgress ==> it.started_at == Some(times.stamp)
            &&& status != TodoStatus::InProgress ==> it.started_at == l.items[j].started_at
            &&& status == TodoStatus::Completed || status == TodoStatus::Failed || status
                == TodoStatus::Skipped ==> it.completed_at == Some(times.stamp)
            &&& status == TodoStatus::Pending || status == TodoStatus::Ready || status
                == TodoStatus::InProgress ==> it.completed_at == l.items[j].completed_at
            &&& status == TodoStatus::Completed ==> it.result == result
            &&& status != TodoStatus::Completed ==> it.result == l.items[j].result
            &&& status == TodoStatus::Failed ==> it.error == error
            &&& status == TodoStatus::Skipped && error is Some ==> it.error == error
            &&& status == TodoStatus::Skipped && error is None ==> it.error == l.items[j].error
            &&& status != TodoStatus::Failed && status != TodoStatus::Skipped ==> it.error
                == l.items[j].error
            &&& it.id == id
            &&& it.content == l.items[j].content
            &&& it.depends_on == l.items[j].depends_on
            &&& it.created_at == l.items[j].created_at
            &&& it.restart_count == l.items[j].restart_count
        }),
        l.dag_updated(id, status, result, error, times).items.len() == l.items.len(),
        l.dag_updated(id, status, result, error, times).next_id == l.next_id,
{
}

/// When an item completes, another item becomes ready just if it is pending, depends
/// on it, and each of its dependencies is that item or one that was completed
/// before. Nothing else changes in it, and nothing at all in the others.
pub proof fn law_completion_reaches_dependents(
    l: TodoListView,
    id: u32,
    result: Option<Seq<char>>,
    error: Option<Seq<char>>,
    times: DagTimes,
    i: int,
    j: int,
)
    requires
        l.wf(),
        0 <= i < l.items.len(),
        l.items[i].id == id,
        0 <= j < l.items.len(),
        j != i,
    ensures
        ({
            let it = l.dag_updated(id, TodoStatus::Completed, result, error, times).items[j];
            let deps = l.items[j].depends_on;
            if l.items[j].status == TodoStatus::Pending && (exists|k: int|
                0 <= k < deps.len() && #[trigger] deps[k] == id) && (forall|k: int|
                0 <= k < deps.len() ==> (#[trigger] deps[k]) == id || exists|m: int|
                    0 <= m < l.items.len() && (#[trigger] l.items[m]).id == deps[k]
                        && l.items[m].status == TodoStatus::Completed) {
                it == (TodoItemView { status: TodoStatus::Ready, ..l.items[j] })
            } else {
                it == l.items[j]
            }
        }),
{
    let status = TodoStatus::Completed;
    let deps = l.items[j].depends_on;
    let marked = l.updated(
        id,
        |it: TodoItemView| it.marked(status, result, error, times.beat, times.stamp),
    );
    assert(l.items[i].id != l.items[j].id);
    assert(marked.items[j] == l.items[j]);
    assert forall|k: int| 0 <= k < deps.len() implies marked.is_completed(#[trigger] deps[k]) == (
    deps[k] == id || exists|m: int|
        0 <= m < l.items.len() && (#[trigger] l.items[m]).id == deps[k] && l.items[m].status
            == TodoStatus::Completed) by {
        let x = deps[k];
        if x == id {
            assert(marked.items[i].id == x);
        }
        if exists|m: int|
            0 <= m < l.items.len() && (#[trigger] l.items[m]).id == x && l.items[m].status
                == TodoStatus::Completed {
            let m = choose|m: int|
                0 <= m < l.items.len() && (#[trigger] l.items[m]).id == x && l.items[m].status
                    == TodoStatus::Completed;
            assert(marked.items[m].id == x);
        }
        if marked.is_completed(x) && x != id {
            let m = choose|m: int|
                0 <= m < marked.items.len() && (#[trigger] marked.items[m]).id == x
                    && marked.items[m].status == TodoStatus::Completed;
            assert(l.items[m].id == x);
        }
    }
}

/// When an item fails, another item is skipped just if it is pending and depends on
/// it, however many dependencies it has: it gets an error that names the failed
/// item and is stamped as ended. Nothing else changes in it, and nothing at all in
/// the others.
pub proof fn law_failure_reaches_dependents(
    l: TodoListView,
    id: u32,
    result: Option<Seq<char>>,
    error: Option<Seq<char>>,
    times: DagTimes,
    i: int,
    j: int,
)
    requires
        l.wf(),
        0 <= i < l.items.len(),
        l.items[i].id == id,
        0 <= j < l.items.len(),
        j != i,
    ensures
        ({
            let it = l.dag_updated(id, TodoStatus::Failed, result, error, times).items[j];
            if l.items[j].status == TodoStatus::Pending && exists|k: int|
                0 <= k < l.items[j].depends_on.len() && #[trigger] l.items[j].depends_on[k] == id {
                &&& it.status == TodoStatus::Skipped
                &&& it.error == Some(
                    "Skipped: dependency #"@ + text::decimal(id as nat) + " failed"@,
                )
                &&& it.completed_at == Some(times.skips[j])
                &&& it.id == l.items[j].id
                &&& it.content == l.items[j].content
                &&& it.depends_on == l.items[j].depends_on
                &&& it.created_at == l.items[j].created_at
                &&& it.started_at == l.items[j].started_at
                &&& it.heartbeat == l.items[j].heartbeat
                &&& it.result == l.items[j].result
                &&& it.restart_count == l.items[j].restart_count
            } else {
                it == l.items[j]
            }
        }),
{
    assert(l.items[i].id != l.items[j].id);
}

/// A report of any other status reaches no other item.
pub proof fn law_other_reports_stay_with_the_item(
    l: TodoListView,
    id: u32,
    status: TodoStatus,
    result: Option<Seq<char>>,
    error: Option<Seq<char>>,
    times: DagTimes,
    j: int,
)
    requires
        0 <= j < l.items.len(),
        l.items[j].id != id,
        status != TodoStatus::Completed,
        status != TodoStatus::Failed,
    ensures
        l.dag_updated(id, status, result, error, times).items[j] == l.items[j],
{
}

/// An update of an id that no item has leaves the list as it is; a flat status
/// update to in progress still puts those in progress back to pending.
pub proof fn law_update_of_no_item(
    l: TodoListView,
    id: u32,
    status: TodoStatus,
    result: Option<Seq<char>>,
    error: Option<Seq<char>>,
    times: DagTimes,
    progress: Option<Seq<char>>,
    at: Timestamp,
)
    requires
        l.wf(),
        forall|j: int| 0 <= j < l.items.len() ==> (#[trigger] l.items[j]).id != id,
    ensures
        l.dag_updated(id, status, result, error, times) == l,
        l.beaten(id, at) == l,
        l.progressed(id, progress, at) == l,
        l.restarted(id) == l,
        status != TodoStatus::InProgress ==> l.status_updated(id, status) == l,
        l.tool_updated(id, status, times) == l,
{
    crate::laws::law_unknown_id_is_ignored(l, id, status, result, error, times, progress, at);
    crate::laws::law_unknown_id_is_ignored(l, id, status, None, None, times, progress, at);
}

/// An update by the tool gives the item the status. One to pending or ready changes
/// nothing else; any other counts as a report without result or error. Only a
/// completion and a failure reach other items, and in them only those that are
/// pending and depend on the item.
pub proof fn law_tool_update(
    l: TodoListView,
    id: u32,
    status: TodoStatus,
    times: DagTimes,
    i: int,
    j: int,
)
    requires
        l.wf(),
        0 <= i < l.items.len(),
        l.items[i].id == id,
        0 <= j < l.items.len(),
        j != i,
    ensures
        ({
            let after = l.tool_updated(id, status, times);
            let it = after.items[i];
            let other = after.items[j];
            let waits = l.items[j].status == TodoStatus::Pending && exists|k: int|
                0 <= k < l.items[j].depends_on.len() && #[trigger] l.items[j].depends_on[k] == id;
            &&& after.items.len() == l.items.len()
            &&& after.next_id == l.next_id
            &&& it.status == status
            &&& status == TodoStatus::Pending || status == TodoStatus::Ready ==> it == (
            TodoItemView { status, ..l.items[i] })
            &&& status == TodoStatus::InProgress ==> it == (TodoItemView {
                status,
                heartbeat: Some(times.beat),
                started_at: Some(times.stamp),
                ..l.items[i]
            })
            &&& status == TodoStatus::Completed ==> it == (TodoItemView {
                status,
                heartbeat: Some(times.beat),
                completed_at: Some(times.stamp),
                result: None,
                ..l.items[i]
            })
            &&& status == TodoStatus::Failed ==> it == (TodoItemView {
                status,
                heartbeat: Some(times.beat),
                completed_at: Some(times.stamp),
                error: None,
                ..l.items[i]
            })
            &&& status == TodoStatus::Skipped ==> it == (TodoItemView {
                status,
                heartbeat: Some(times.beat),
                completed_at: Some(times.stamp),
                ..l.items[i]
            })
            &&& !waits ==> other == l.items[j]
            &&& status != TodoStatus::Completed && status != TodoStatus::Failed ==> other
                == l.items[j]
            &&& waits && status == TodoStatus::Failed ==> other == (TodoItemView {
                status: TodoStatus::Skipped,
                error: Some("Skipped: dependency #"@ + text::decimal(id as nat) + " failed"@),
                completed_at: Some(times.skips[j]),
                ..l.items[j]
            })
            &&& waits && status == TodoStatus::Completed ==> if forall|k: int|
                0 <= k < l.items[j].depends_on.len() ==> (#[trigger] l.items[j].depends_on[k])
                    == id || exists|m: int|
                    0 <= m < l.items.len() && (#[trigger] l.items[m]).id
                        == l.items[j].depends_on[k] && l.items[m].status
                        == TodoStatus::Completed {
                other == (TodoItemView { status: TodoStatus::Ready, ..l.items[j] })
            } else {
                other == l.items[j]
            }
        }),
{
    assert(l.items[i].id != l.items[j].id);
    law_report(l, id, status, None, None, times, i);
    law_completion_reaches_dependents(l, id, None, None, times, i, j);
    law_failure_reaches_dependents(l, id, None, None, times, i, j);
}

/// A heartbeat sets the time of the item's last heartbeat and nothing else.
pub proof fn law_heartbeat(l: TodoListView, id: u32, at: Timestamp)
    ensures
        l.beaten(id, at).items.len() == l.items.len(),
        l.beaten(id, at).next_id == l.next_id,
        forall|j: int|
            0 <= j < l.items.len() ==> {
                let it = #[trigger] l.beaten(id, at).items[j];
                if l.items[j].id == id {
                    it == (TodoItemView { heartbeat: Some(at), ..l.items[j] })
                } else {
                    it == l.items[j]
                }
            },
{
}

/// A heartbeat with progress sets the time of the item's last heartbeat and, if
/// the progress says anything, the item's result, which then ends in what it says.
/// Nothing else changes.
pub proof fn law_progress(l: TodoListView, id: u32, progress: Option<Seq<char>>, at: Timestamp)
    ensures
        l.progressed(id, progress, at).items.len() == l.items.len(),
        l.progressed(id, progress, at).next_id == l.next_id,
        forall|j: int|
            0 <= j < l.items.len() ==> {
                let it = #[trigger] l.progressed(id, progress, at).items[j];
                if l.items[j].id != id {
                    it == l.items[j]
                } else if progress is Some && progress->0.len() > 0 {
                    it == (TodoItemView {
                        heartbeat: Some(at),
                        result: Some("[progress] "@ + progress->0),
                        ..l.items[j]
                    })
                } else {
                    it == (TodoItemView { heartbeat: Some(at), ..l.items[j] })
                }
            },
{
}

/// A restart counts one more restart of the item and changes nothing else.
pub proof fn law_restart(l: TodoListView, id: u32, j: int)
    requires
        0 <= j < l.items.len(),
    ensures
        l.restarted(id).items.len() == l.items.len(),
        l.restarted(id).next_id == l.next_id,
        l.items[j].id != id ==> l.restarted(id).items[j] == l.items[j],
        l.items[j].id == id && l.items[j].restart_count < u32::MAX ==> {
            let it = l.restarted(id).items[j];
            &&& it.restart_count == l.items[j].restart_count + 1
            &&& it == (TodoItemView { restart_count: it.restart_count, ..l.items[j] })
        },
{
}

/// What a filter leaves of the first `n` elements is as much as there are places
/// among them whose element passes.
proof fn lemma_count_places(
    s: Seq<TodoItemView>,
    n: int,
    p: spec_fn(TodoItemView) -> bool,
    places: Set<int>,
)
    requires
        0 <= n <= s.len(),
        places.finite(),
        forall|j: int| #[trigger] places.contains(j) <==> 0 <= j < n && p(s[j]),
    ensures
        s.take(n).filter(p).len() == places.len(),
    decreases n,
{
    reveal(Seq::filter);
    if n == 0 {
        assert(places =~= Set::empty());
    } else {
        lemma_count_places(s, n - 1, p, places.remove(n - 1));
        lemmas::lemma_filter_step(s, p, n - 1);
    }
}

/// With `done` the places of the completed items, the completion percentage is the
/// whole number nearest to the share of `done` in all items, the larger of two as
/// near; it is 0 without items.
pub proof fn law_percentage_of_completed(l: TodoListView, done: Set<int>)
    requires
        done.finite(),
        forall|j: int| #[trigger]
            done.contains(j) <==> 0 <= j < l.items.len() && l.items[j].status
                == TodoStatus::Completed,
    ensures
        l.completed_count() == done.len(),
        l.items.len() == 0 ==> l.percentage() == 0,
        l.items.len() > 0 ==> 2 * l.items.len() * l.percentage() <= 200 * done.len()
            + l.items.len() < 2 * l.items.len() * (l.percentage() + 1),
        l.percentage() <= 100,
{
    lemma_count_places(
        l.items,
        l.items.len() as int,
        TodoItemView::has_status(TodoStatus::Completed),
        done,
    );
    assert(l.items.take(l.items.len() as int) =~= l.items);
    crate::laws::law_percentage(l);
}

/// A filter puts first the first element that passes.
proof fn lemma_filter_first(s: Seq<TodoItemView>, p: spec_fn(TodoItemView) -> bool, j: int)
    requires
        0 <= j < s.len(),
        p(s[j]),
        forall|i: int| 0 <= i < j ==> !p(#[trigger] s[i]),
    ensures
        s.filter(p).len() > 0,
        s.filter(p)[0] == s[j],
{
    lemma_count_places(s, j, p, Set::empty());
    lemmas::lemma_filter_step(s, p, j);
    let head = s.take(j + 1);
    let tail = s.skip(j + 1);
    Seq::filter_distributes_over_add(head, tail, p);
    assert(head + tail =~= s);
}

/// The list reports the id of the first item in progress, whatever it depends on,
/// and none just if no item is in progress.
pub proof fn law_first_in_progress(l: TodoListView)
    ensures
        (forall|j: int|
            0 <= j < l.items.len() ==> (#[trigger] l.items[j]).status != TodoStatus::InProgress)
            ==> l.in_progress() is None,
        forall|j: int|
            0 <= j < l.items.len() && (#[trigger] l.items[j]).status == TodoStatus::InProgress && (
            forall|i: int|
                0 <= i < j ==> (#[trigger] l.items[i]).status != TodoStatus::InProgress)
                ==> l.in_progress() == Some(l.items[j].id),
{
    let p = TodoItemView::has_status(TodoStatus::InProgress);
    assert forall|j: int|
        0 <= j < l.items.len() && (#[trigger] l.items[j]).status == TodoStatus::InProgress && (
        forall|i: int|
            0 <= i < j ==> (#[trigger] l.items[i]).status
                != TodoStatus::InProgress) implies l.in_progress() == Some(l.items[j].id) by {
        lemma_filter_first(l.items, p, j);
    }
    crate::laws::law_reported_in_progress(l);
    if forall|j: int|
        0 <= j < l.items.len() ==> (#[trigger] l.items[j]).status != TodoStatus::InProgress {
        lemma_count_places(l.items, l.items.len() as int, p, Set::empty());
        assert(l.items.take(l.items.len() as int) =~= l.items);
    }
}

/// In a well-formed list a filter keeps the ids ascending.
proof fn lemma_filter_ascending(l: TodoListView, n: int, p: spec_fn(TodoItemView) -> bool)
    requires
        l.wf(),
        0 <= n <= l.items.len(),
    ensures
        ({
            let f = l.items.take(n).filter(p);
            &&& forall|a: int| 0 <= a < f.len() ==> (#[trigger] f[a]).id < l.first_id() + n
            &&& forall|a: int, b: int|
                0 <= a < b < f.len() ==> (#[trigger] f[a]).id < (#[trigger] f[b]).id
        }),
    decreases n,
{
    reveal(Seq::filter);
    if n > 0 {
        lemma_filter_ascending(l, n - 1, p);
        lemmas::lemma_filter_step(l.items, p, n - 1);
        assert(l.items[n - 1].id == l.first_id() + n - 1);
    }
}

/// The running items are the items in progress, all of them and no others, whatever
/// they depend on.
pub proof fn law_running_items(l: TodoListView, it: TodoItemView)
    ensures
        l.running().contains(it) <==> (exists|j: int|
            0 <= j < l.items.len() && #[trigger] l.items[j] == it) && it.status
            == TodoStatus::InProgress,
{
    lemmas::lemma_filter_contains(
        l.items,
        TodoItemView::has_status(TodoStatus::InProgress),
        it,
    );
}

/// The items offered for scheduling are the ready items each of whose dependencies
/// is a completed item, all of them and no others.
pub proof fn law_offered_items(l: TodoListView, it: TodoItemView)
    ensures
        l.ready().contains(it) <==> (exists|j: int|
            0 <= j < l.items.len() && #[trigger] l.items[j] == it) && it.status
            == TodoStatus::Ready && (forall|k: int|
            0 <= k < it.depends_on.len() ==> exists|m: int|
                0 <= m < l.items.len() && (#[trigger] l.items[m]).id
                    == #[trigger] it.depends_on[k] && l.items[m].status
                    == TodoStatus::Completed),
{
    lemmas::lemma_filter_contains(l.items, l.schedulable(), it);
    let deps = it.depends_on;
    assert forall|k: int| 0 <= k < deps.len() implies l.is_completed(#[trigger] deps[k]) == exists|
        m: int,
    |
        0 <= m < l.items.len() && (#[trigger] l.items[m]).id == deps[k] && l.items[m].status
            == TodoStatus::Completed by {}
    if l.all_completed(deps) {
        assert forall|k: int| 0 <= k < deps.len() implies exists|m: int|
            0 <= m < l.items.len() && (#[trigger] l.items[m]).id == #[trigger] deps[k]
                && l.items[m].status == TodoStatus::Completed by {
            assert(l.is_completed(deps[k]));
        }
    }
}

/// The running items and those offered for scheduling come in the order of the
/// list, each once: their ids ascend as those of the list do.
pub proof fn law_selections_keep_the_order(l: TodoListView)
    requires
        l.wf(),
    ensures
        forall|a: int, b: int|
            0 <= a < b < l.items.len() ==> (#[trigger] l.items[a]).id < (#[trigger] l.items[b]).id,
        forall|a: int, b: int|
            0 <= a < b < l.running().len() ==> (#[trigger] l.running()[a]).id < (
            #[trigger] l.running()[b]).id,
        forall|a: int, b: int|
            0 <= a < b < l.ready().len() ==> (#[trigger] l.ready()[a]).id < (
            #[trigger] l.ready()[b]).id,
{
    let n = l.items.len() as int;
    lemma_filter_ascending(l, n, TodoItemView::has_status(TodoStatus::InProgress));
    lemma_filter_ascending(l, n, l.schedulable());
    assert(l.items.take(n) =~= l.items);
}

/// A subtask without dependencies of its own depends on an id just if an item in
/// progress has it.
pub proof fn law_default_dependencies(l: TodoListView, id: u32)
    ensures
        l.running().map_values(|it: TodoItemView| it.id).contains(id) <==> exists|j: int|
            0 <= j < l.items.len() && (#[trigger] l.items[j]).id == id && l.items[j].status
                == TodoStatus::InProgress,
{
    let running = l.running();
    let ids = running.map_values(|it: TodoItemView| it.id);
    if ids.contains(id) {
        let a = choose|a: int| 0 <= a < ids.len() && ids[a] == id;
        assert(running.contains(running[a]));
        law_running_items(l, running[a]);
    }
    if exists|j: int|
        0 <= j < l.items.len() && (#[trigger] l.items[j]).id == id && l.items[j].status
            == TodoStatus::InProgress {
        let j = choose|j: int|
            0 <= j < l.items.len() && (#[trigger] l.items[j]).id == id && l.items[j].status
                == TodoStatus::InProgress;
        law_running_items(l, l.items[j]);
        let a = choose|a: int| 0 <= a < running.len() && running[a] == l.items[j];
        assert(ids[a] == id);
    }
}

/// A snapshot holds every item of the list as it is, in its place, with the
/// completion percentage and the item in progress of the list.
pub proof fn law_snapshot(l: TodoListView)
    ensures
        l.snapshot().items.len() == l.items.len(),
        forall|j: int|
            0 <= j < l.items.len() ==> #[trigger] l.snapshot().items[j] == l.items[j],
        l.snapshot().items == l.items,
        l.snapshot().completion_pct == l.percentage(),
        l.snapshot().in_progress_id == l.in_progress(),
{
}

/// A list is done just if each item is completed, failed or skipped.
pub proof fn law_done(l: TodoListView)
    ensures
        l.all_terminal() <==> forall|j: int|
            0 <= j < l.items.len() ==> (#[trigger] l.items[j]).status == TodoStatus::Completed
                || l.items[j].status == TodoStatus::Failed || l.items[j].status
                == TodoStatus::Skipped,
{
    assert forall|j: int| 0 <= j < l.items.len() implies status::terminal(
        (#[trigger] l.items[j]).status,
    ) == (l.items[j].status == TodoStatus::Completed || l.items[j].status == TodoStatus::Failed
        || l.items[j].status == TodoStatus::Skipped) by {}
}

/// A new item closes a cycle if it is among its dependencies, or if it would with
/// the dependencies of one of them. It does not if some set of ids holds its
/// dependencies, and with an item's id all that item depends on, but not the new
/// item.
pub proof fn law_cycles(
    items: Seq<TodoItemView>,
    new_id: u32,
    depends_on: Seq<u32>,
    j: int,
    ancestors: Set<u32>,
)
    ensures
        depends_on.contains(new_id) ==> graph::creates_cycle(items, new_id, depends_on),
        0 <= j < items.len() && depends_on.contains(items[j].id) && graph::creates_cycle(
            items,
            new_id,
            items[j].depends_on,
        ) ==> graph::creates_cycle(items, new_id, depends_on),
        (forall|k: int| 0 <= k < depends_on.len() ==> ancestors.contains(#[trigger] depends_on[k]))
            && (forall|m: int, k: int|
            0 <= m < items.len() && 0 <= k < items[m].depends_on.len() && ancestors.contains(
                items[m].id,
            ) ==> ancestors.contains(#[trigger] items[m].depends_on[k])) && !ancestors.contains(
            new_id,
        ) ==> !graph::creates_cycle(items, new_id, depends_on),
{
    graph::lemma_cycle_facts(items, new_id, depends_on, j, ancestors);
}

/// The value of an item shows each of its fields.
pub proof fn law_item_value(it: TodoItem)
    ensures
        it@.id == it.id,
        it@.content == it.content@,
        it@.status == it.status,
        it@.depends_on == it.depends_on@,
        it@.created_at == it.created_at,
        it@.started_at == it.started_at,
        it@.completed_at == it.completed_at,
        it@.heartbeat == it.heartbeat,
        it@.restart_count == it.restart_count,
        it.result is None <==> it@.result is None,
        it.result is Some ==> it@.result == Some(it.result->0@),
        it.error is None <==> it@.error is None,
        it.error is Some ==> it@.error == Some(it.error->0@),
{
}

/// The value of a snapshot shows each of its items in its place, and its figures.
pub proof fn law_snapshot_value(snapshot: TodoListSnapshot)
    ensures
        snapshot@.items.len() == snapshot.items@.len(),
        forall|j: int|
            0 <= j < snapshot.items@.len() ==> #[trigger] snapshot@.items[j]
                == snapshot.items@[j]@,
        snapshot@.completion_pct == snapshot.completion_pct,
        snapshot@.in_progress_id == snapshot.in_progress_id,
{
}

/// The values of items, and of references to items, are those of each, in its
/// place.
pub proof fn law_item_values(items: Seq<TodoItem>, refs: Seq<&TodoItem>)
    ensures
        list::ref_views(refs).len() == refs.len(),
        forall|j: int| 0 <= j < refs.len() ==> #[trigger] list::ref_views(refs)[j] == refs[j]@,
        item::item_views(items).len() == items.len(),
        forall|j: int|
            0 <= j < items.len() ==> #[trigger] item::item_views(items)[j] == items[j]@,
{
}

} // verus!
