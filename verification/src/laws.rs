//! Laws of the todo list: what holds across its operations.
use vstd::prelude::*;

use crate::clock::Timestamp;
use crate::graph;
use crate::item::TodoItemView;
use crate::lemmas;
use crate::model::{DagTimes, TodoListView};
use crate::status;
use crate::status::TodoStatus;

verus! {

/// Following dependencies leads to ever smaller ids.
proof fn lemma_reaches_down(l: TodoListView, a: u32, b: u32, n: nat)
    requires
        l.wf(),
        graph::reaches_in(l.items, a, b, n),
    ensures
        b + n <= a,
    decreases n,
{
    if n > 0 {
        let m = choose|m: u32|
            graph::reaches_in(l.items, a, m, (n - 1) as nat)
                && #[trigger] graph::depends(l.items, m, b);
        lemma_reaches_down(l, a, m, (n - 1) as nat);
        let j = choose|j: int|
            0 <= j < l.items.len() && (#[trigger] l.items[j]).id == m
                && l.items[j].depends_on.contains(b);
        let k = choose|k: int|
            0 <= k < l.items[j].depends_on.len() && l.items[j].depends_on[k] == b;
        assert(l.items[j].depends_on[k] < l.items[j].id);
    }
}

/// The dependencies of a list never form a cycle.
pub proof fn law_acyclic(l: TodoListView, a: u32, n: nat)
    requires
        l.wf(),
        n > 0,
    ensures
        !graph::reaches_in(l.items, a, a, n),
{
    if graph::reaches_in(l.items, a, a, n) {
        lemma_reaches_down(l, a, a, n);
    }
}

/// An item is refused just if one of its dependencies is not in the list: a new
/// item cannot close a cycle.
pub proof fn law_refused_only_for_missing(l: TodoListView, depends_on: Seq<u32>)
    requires
        l.wf(),
    ensures
        l.refusal(depends_on) is Some <==> exists|k: int|
            0 <= k < depends_on.len() && !graph::has_id(l.items, #[trigger] depends_on[k]),
        l.refusal(depends_on) is None ==> !graph::creates_cycle(
            l.items,
            l.next_id,
            depends_on,
        ),
{
    if l.first_missing(depends_on) is None {
        assert forall|k: int| 0 <= k < depends_on.len() implies graph::has_id(
            l.items,
            #[trigger] depends_on[k],
        ) by {
            lemmas::lemma_none_missing(l, depends_on, k);
        }
        if graph::creates_cycle(l.items, l.next_id, depends_on) {
            let k = choose|k: int|
                0 <= k < depends_on.len() && graph::reaches(
                    l.items,
                    #[trigger] depends_on[k],
                    l.next_id,
                );
            let n = choose|n: nat|
                graph::reaches_in(l.items, depends_on[k], l.next_id, n);
            lemma_reaches_down(l, depends_on[k], l.next_id, n);
            lemmas::lemma_ids(l, depends_on[k]);
            assert(false);
        }
    } else {
        if forall|k: int|
            0 <= k < depends_on.len() ==> graph::has_id(l.items, #[trigger] depends_on[k]) {
            lemmas::lemma_first_missing(l, depends_on, depends_on.len() as int);
            assert(false);
        }
    }
}

/// Ids are never given twice: those in the list are distinct, and the next one
/// is not among them.
pub proof fn law_ids_unique(l: TodoListView)
    requires
        l.wf(),
    ensures
        graph::distinct_ids(l.items),
        !graph::has_id(l.items, l.next_id),
{
    lemmas::lemma_ids(l, l.next_id);
}

/// At most one item is in progress.
pub open spec fn single_in_progress(l: TodoListView) -> bool {
    forall|i: int, j: int|
        0 <= i < l.items.len() && 0 <= j < l.items.len() && (#[trigger] l.items[i]).status
            == TodoStatus::InProgress && (#[trigger] l.items[j]).status == TodoStatus::InProgress
            ==> i == j
}

proof fn lemma_in_progress_at(l: TodoListView, i: int)
    requires
        0 <= i < l.items.len(),
        l.items[i].status == TodoStatus::InProgress,
        single_in_progress(l),
    ensures
        l.in_progress() == Some(l.items[i].id),
{
    let p = TodoItemView::has_status(TodoStatus::InProgress);
    let running = l.running();
    assert(l.items.contains(l.items[i]));
    lemmas::lemma_filter_contains(l.items, p, l.items[i]);
    assert(running.len() > 0);
    assert(running.contains(running[0]));
    lemmas::lemma_filter_contains(l.items, p, running[0]);
    let j = choose|j: int| 0 <= j < l.items.len() && l.items[j] == running[0];
    assert(l.items[j].status == TodoStatus::InProgress);
}

/// An item that is added in progress is the only one, and the one the list
/// reports.
pub proof fn law_added_in_progress_is_single(l: TodoListView, content: Seq<char>, at: Timestamp)
    requires
        l.has_room(),
    ensures
        single_in_progress(l.added(content, TodoStatus::InProgress, at)),
        l.added(content, TodoStatus::InProgress, at).in_progress() == Some(l.next_id),
{
    let after = l.added(content, TodoStatus::InProgress, at);
    lemma_in_progress_at(after, after.items.len() - 1);
}

/// An item whose status is set to in progress is the only one, and the one the
/// list reports; without such an item none is in progress.
pub proof fn law_updated_in_progress_is_single(l: TodoListView, id: u32)
    requires
        l.wf(),
    ensures
        single_in_progress(l.status_updated(id, TodoStatus::InProgress)),
        l.status_updated(id, TodoStatus::InProgress).in_progress() == if l.lookup(id) is Some {
            Some(id)
        } else {
            None
        },
{
    let after = l.status_updated(id, TodoStatus::InProgress);
    lemmas::lemma_ids(l, id);
    assert forall|j: int|
        0 <= j < after.items.len() && (#[trigger] after.items[j]).status
            == TodoStatus::InProgress implies l.items[j].id == id by {}
    if l.lookup(id) is Some {
        let i = id - l.first_id();
        assert(l.items[i].id == id);
        lemma_in_progress_at(after, i);
    } else {
        law_reported_in_progress(after);
        assert forall|j: int| 0 <= j < after.items.len() implies (
        #[trigger] after.items[j]).status != TodoStatus::InProgress by {
            assert(l.items[j].id != id);
        }
    }
}

/// The list reports no item in progress just if there is none, and else reports
/// the id of one.
pub proof fn law_reported_in_progress(l: TodoListView)
    ensures
        match l.in_progress() {
            Some(id) => exists|j: int|
                0 <= j < l.items.len() && (#[trigger] l.items[j]).id == id && l.items[j].status
                    == TodoStatus::InProgress,
            None => forall|j: int|
                0 <= j < l.items.len() ==> (#[trigger] l.items[j]).status
                    != TodoStatus::InProgress,
        },
{
    let p = TodoItemView::has_status(TodoStatus::InProgress);
    let running = l.running();
    if running.len() > 0 {
        assert(running.contains(running[0]));
        lemmas::lemma_filter_contains(l.items, p, running[0]);
        let j = choose|j: int| 0 <= j < l.items.len() && l.items[j] == running[0];
        assert(l.items[j].id == running[0].id);
    } else {
        assert forall|j: int| 0 <= j < l.items.len() implies (#[trigger] l.items[j]).status
            != TodoStatus::InProgress by {
            if l.items[j].status == TodoStatus::InProgress {
                assert(l.items.contains(l.items[j]));
                lemmas::lemma_filter_contains(l.items, p, l.items[j]);
            }
        }
    }
}

/// `b` has the items of `a`, with the same ids, contents, dependencies and times
/// of creation, in the same order.
pub open spec fn same_structure(a: TodoListView, b: TodoListView) -> bool {
    &&& a.next_id == b.next_id
    &&& a.items.len() == b.items.len()
    &&& forall|j: int|
        0 <= j < a.items.len() ==> {
            &&& (#[trigger] b.items[j]).id == a.items[j].id
            &&& b.items[j].content == a.items[j].content
            &&& b.items[j].depends_on == a.items[j].depends_on
            &&& b.items[j].created_at == a.items[j].created_at
        }
}

/// The items of `b` were restarted as often as those of `a`.
pub open spec fn same_restarts(a: TodoListView, b: TodoListView) -> bool {
    &&& a.items.len() == b.items.len()
    &&& forall|j: int|
        0 <= j < a.items.len() ==> (#[trigger] b.items[j]).restart_count
            == a.items[j].restart_count
}

/// No update adds, removes, renumbers or reorders items or changes what they
/// say, what they depend on or when they were created. Only a restart counts as
/// one.
pub proof fn law_updates_keep_structure(
    l: TodoListView,
    id: u32,
    status: TodoStatus,
    result: Option<Seq<char>>,
    error: Option<Seq<char>>,
    times: DagTimes,
    progress: Option<Seq<char>>,
    at: Timestamp,
)
    ensures
        same_structure(l, l.dag_updated(id, status, result, error, times)),
        same_structure(l, l.status_updated(id, status)),
        same_structure(l, l.beaten(id, at)),
        same_structure(l, l.progressed(id, progress, at)),
        same_structure(l, l.restarted(id)),
        same_restarts(l, l.dag_updated(id, status, result, error, times)),
        same_restarts(l, l.status_updated(id, status)),
        same_restarts(l, l.beaten(id, at)),
        same_restarts(l, l.progressed(id, progress, at)),
{
}

/// Lists with the same structure have the same ids.
pub(crate) proof fn lemma_same_ids(a: TodoListView, b: TodoListView, id: u32)
    requires
        same_structure(a, b),
    ensures
        graph::has_id(a.items, id) == graph::has_id(b.items, id),
{
    if graph::has_id(a.items, id) {
        let j = choose|j: int| 0 <= j < a.items.len() && (#[trigger] a.items[j]).id == id;
        assert(b.items[j].id == id);
    }
    if graph::has_id(b.items, id) {
        let j = choose|j: int| 0 <= j < b.items.len() && (#[trigger] b.items[j]).id == id;
        assert(a.items[j].id == id);
    }
}

/// An update of an item that is not in the list changes nothing. (A flat status
/// update to in progress is left out: it ends the progress of the others all the
/// same.)
pub proof fn law_unknown_id_is_ignored(
    l: TodoListView,
    id: u32,
    status: TodoStatus,
    result: Option<Seq<char>>,
    error: Option<Seq<char>>,
    times: DagTimes,
    progress: Option<Seq<char>>,
    at: Timestamp,
)
    requires
        l.wf(),
        !graph::has_id(l.items, id),
    ensures
        l.dag_updated(id, status, result, error, times) == l,
        status != TodoStatus::InProgress ==> l.status_updated(id, status) == l,
        l.beaten(id, at) == l,
        l.progressed(id, progress, at) == l,
        l.restarted(id) == l,
{
    lemmas::lemma_ids(l, id);
    assert(l.status_updated(id, status) =~= l || status == TodoStatus::InProgress);
    assert(l.beaten(id, at) =~= l);
    assert(l.progressed(id, progress, at) =~= l);
    assert(l.restarted(id) =~= l);
}

/// Whether `x` is completed is decided by the item `x` alone.
proof fn lemma_completed(l: TodoListView, j: int)
    requires
        l.wf(),
        0 <= j < l.items.len(),
    ensures
        l.is_completed(l.items[j].id) <==> l.items[j].status == TodoStatus::Completed,
{
}

/// Releasing or skipping items completes none and takes none back.
proof fn lemma_propagation_keeps_completed(
    l: TodoListView,
    id: u32,
    at: Seq<Timestamp>,
    x: u32,
)
    ensures
        l.released(id).is_completed(x) == l.is_completed(x),
        l.skipped(id, at).is_completed(x) == l.is_completed(x),
{
    if l.is_completed(x) {
        let j = choose|j: int|
            0 <= j < l.items.len() && (#[trigger] l.items[j]).id == x && l.items[j].status
                == TodoStatus::Completed;
        assert(l.released(id).items[j].id == x);
        assert(l.skipped(id, at).items[j].id == x);
    }
    if l.released(id).is_completed(x) {
        let r = l.released(id);
        let j = choose|j: int|
            0 <= j < r.items.len() && (#[trigger] r.items[j]).id == x && r.items[j].status
                == TodoStatus::Completed;
        assert(l.items[j].id == x);
    }
    if l.skipped(id, at).is_completed(x) {
        let r = l.skipped(id, at);
        let j = choose|j: int|
            0 <= j < r.items.len() && (#[trigger] r.items[j]).id == x && r.items[j].status
                == TodoStatus::Completed;
        assert(l.items[j].id == x);
    }
}

/// After a status report an item is completed just if it was and another is
/// reported on, or if it is the one reported completed.
proof fn lemma_update_completed(
    l: TodoListView,
    id: u32,
    status: TodoStatus,
    result: Option<Seq<char>>,
    error: Option<Seq<char>>,
    times: DagTimes,
    x: u32,
)
    requires
        l.wf(),
        l.lookup(id) is Some,
    ensures
        l.dag_updated(id, status, result, error, times).is_completed(x) == if x == id {
            status == TodoStatus::Completed
        } else {
            l.is_completed(x)
        },
{
    let marked = l.updated(
        id,
        |it: TodoItemView| it.marked(status, result, error, times.beat, times.stamp),
    );
    lemma_propagation_keeps_completed(marked, id, times.skips, x);
    let i = id - l.first_id();
    assert(l.items[i].id == id);
    assert(marked.items[i].id == id);
    if l.is_completed(x) && x != id {
        let j = choose|j: int|
            0 <= j < l.items.len() && (#[trigger] l.items[j]).id == x && l.items[j].status
                == TodoStatus::Completed;
        assert(marked.items[j].id == x);
    }
    if marked.is_completed(x) {
        let j = choose|j: int|
            0 <= j < marked.items.len() && (#[trigger] marked.items[j]).id == x
                && marked.items[j].status == TodoStatus::Completed;
        assert(l.items[j].id == x);
    }
}

/// When an item completes, each pending item that depends on it becomes ready if
/// all its dependencies are now completed, and stays pending if not; the other
/// items keep as they are.
pub proof fn law_completion_releases_dependents(
    l: TodoListView,
    id: u32,
    result: Option<Seq<char>>,
    error: Option<Seq<char>>,
    times: DagTimes,
    j: int,
)
    requires
        l.wf(),
        l.lookup(id) is Some,
        0 <= j < l.items.len(),
        l.items[j].id != id,
    ensures
        ({
            let after = l.dag_updated(id, TodoStatus::Completed, result, error, times);
            after.items[j] == if l.items[j].blocked_on(id) && after.all_completed(
                l.items[j].depends_on,
            ) {
                l.items[j].with_status(TodoStatus::Ready)
            } else {
                l.items[j]
            }
        }),
{
    let status = TodoStatus::Completed;
    let after = l.dag_updated(id, status, result, error, times);
    let marked = l.updated(
        id,
        |it: TodoItemView| it.marked(status, result, error, times.beat, times.stamp),
    );
    let deps = l.items[j].depends_on;
    assert(marked.items[j] == l.items[j]);
    assert(marked.all_completed(deps) == after.all_completed(deps)) by {
        assert forall|k: int| 0 <= k < deps.len() implies marked.is_completed(#[trigger] deps[k])
            == after.is_completed(deps[k]) by {
            lemma_propagation_keeps_completed(marked, id, times.skips, deps[k]);
        }
    }
}

/// When an item fails, each pending item that depends on it is skipped with an
/// error that names it, so that none is left waiting for it; the other items
/// keep as they are.
pub proof fn law_failure_skips_dependents(
    l: TodoListView,
    id: u32,
    result: Option<Seq<char>>,
    error: Option<Seq<char>>,
    times: DagTimes,
    j: int,
)
    requires
        l.wf(),
        l.lookup(id) is Some,
        0 <= j < l.items.len(),
    ensures
        ({
            let after = l.dag_updated(id, TodoStatus::Failed, result, error, times);
            &&& !after.items[j].blocked_on(id)
            &&& l.items[j].id != id && l.items[j].blocked_on(id) ==> after.items[j]
                == l.items[j].skipped(id, times.skips[j])
            &&& l.items[j].id != id && !l.items[j].blocked_on(id) ==> after.items[j] == l.items[j]
        }),
{
}

/// Every ready item has all its dependencies completed.
pub open spec fn ready_is_sound(l: TodoListView) -> bool {
    forall|j: int|
        0 <= j < l.items.len() && (#[trigger] l.items[j]).status == TodoStatus::Ready
            ==> l.all_completed(l.items[j].depends_on)
}

/// Adding items never makes an item ready too early.
pub proof fn law_adding_keeps_ready_sound(
    l: TodoListView,
    content: Seq<char>,
    status: TodoStatus,
    depends_on: Seq<u32>,
    at: Timestamp,
)
    requires
        ready_is_sound(l),
    ensures
        ready_is_sound(l.dag_added(content, depends_on, at)),
        ready_is_sound(l.added(content, status, at)),
{
    let a = l.dag_added(content, depends_on, at);
    let b = l.added(content, status, at);
    assert forall|x: u32| l.is_completed(x) implies #[trigger] a.is_completed(x) by {
        let j = choose|j: int|
            0 <= j < l.items.len() && (#[trigger] l.items[j]).id == x && l.items[j].status
                == TodoStatus::Completed;
        assert(a.items[j].id == x);
    }
    assert forall|x: u32| l.is_completed(x) implies #[trigger] b.is_completed(x) by {
        let j = choose|j: int|
            0 <= j < l.items.len() && (#[trigger] l.items[j]).id == x && l.items[j].status
                == TodoStatus::Completed;
        assert(b.items[j].id == x);
    }
    assert forall|j: int|
        0 <= j < a.items.len() && (#[trigger] a.items[j]).status
            == TodoStatus::Ready implies a.all_completed(a.items[j].depends_on) by {
        if j < l.items.len() {
            assert(l.all_completed(l.items[j].depends_on));
        }
    }
    assert forall|j: int|
        0 <= j < b.items.len() && (#[trigger] b.items[j]).status
            == TodoStatus::Ready implies b.all_completed(b.items[j].depends_on) by {
        if j < l.items.len() {
            assert(l.items[j].status == TodoStatus::Ready);
            assert(l.all_completed(l.items[j].depends_on));
        }
    }
}

/// Status reports never make an item ready too early: left out are only reports
/// that take back a completion and those that call an item ready before its
/// dependencies are completed.
pub proof fn law_reports_keep_ready_sound(
    l: TodoListView,
    id: u32,
    status: TodoStatus,
    result: Option<Seq<char>>,
    error: Option<Seq<char>>,
    times: DagTimes,
)
    requires
        l.wf(),
        ready_is_sound(l),
        l.lookup(id) matches Some(it) ==> {
            &&& it.status == TodoStatus::Completed ==> status == TodoStatus::Completed
            &&& status == TodoStatus::Ready ==> l.all_completed(it.depends_on)
        },
    ensures
        ready_is_sound(l.dag_updated(id, status, result, error, times)),
{
    let after = l.dag_updated(id, status, result, error, times);
    if l.lookup(id) is Some {
        let i = id - l.first_id();
        assert(l.items[i].id == id);
        assert forall|x: u32| l.is_completed(x) implies #[trigger] after.is_completed(x) by {
            lemma_update_completed(l, id, status, result, error, times, x);
            lemma_completed(l, i);
        }
        assert forall|j: int|
            0 <= j < after.items.len() && (#[trigger] after.items[j]).status
                == TodoStatus::Ready implies after.all_completed(after.items[j].depends_on) by {
            if j == i {
                assert(l.all_completed(l.items[j].depends_on));
            } else if l.items[j].status == TodoStatus::Ready {
                assert(l.all_completed(l.items[j].depends_on));
            } else {
                assert(l.items[j].id != id);
                assert(status == TodoStatus::Completed);
                law_completion_releases_dependents(l, id, result, error, times, j);
            }
        }
    }
}

/// Every pending item waits for a dependency that is not completed.
pub open spec fn pending_waits(l: TodoListView) -> bool {
    forall|j: int|
        0 <= j < l.items.len() && (#[trigger] l.items[j]).status == TodoStatus::Pending
            ==> !l.all_completed(l.items[j].depends_on)
}

/// Adding an item with dependencies leaves no item pending without need, if the
/// new one has a dependency that is not completed yet, or none at all.
pub proof fn law_adding_keeps_pending_waiting(
    l: TodoListView,
    content: Seq<char>,
    depends_on: Seq<u32>,
    at: Timestamp,
)
    requires
        pending_waits(l),
        depends_on.len() > 0 ==> !l.all_completed(depends_on),
    ensures
        pending_waits(l.dag_added(content, depends_on, at)),
{
    let a = l.dag_added(content, depends_on, at);
    assert forall|x: u32| #[trigger] a.is_completed(x) implies l.is_completed(x) by {
        let j = choose|j: int|
            0 <= j < a.items.len() && (#[trigger] a.items[j]).id == x && a.items[j].status
                == TodoStatus::Completed;
        assert(l.items[j].id == x);
    }
    assert forall|j: int|
        0 <= j < a.items.len() && (#[trigger] a.items[j]).status
            == TodoStatus::Pending implies !a.all_completed(a.items[j].depends_on) by {
        let deps = a.items[j].depends_on;
        if j < l.items.len() {
            assert(l.items[j].status == TodoStatus::Pending);
        }
        let k = choose|k: int| 0 <= k < deps.len() && !l.is_completed(#[trigger] deps[k]);
        assert(!a.is_completed(deps[k]));
    }
}

/// Status reports leave no item pending without need: what waited only for the
/// completed item is released. Left out are only reports that put an item back
/// to pending although its dependencies are completed.
pub proof fn law_reports_keep_pending_waiting(
    l: TodoListView,
    id: u32,
    status: TodoStatus,
    result: Option<Seq<char>>,
    error: Option<Seq<char>>,
    times: DagTimes,
)
    requires
        l.wf(),
        pending_waits(l),
        l.lookup(id) matches Some(it) ==> (status == TodoStatus::Pending ==> !l.all_completed(
            it.depends_on,
        )),
    ensures
        pending_waits(l.dag_updated(id, status, result, error, times)),
{
    let after = l.dag_updated(id, status, result, error, times);
    if l.lookup(id) is Some {
        let i = id - l.first_id();
        assert(l.items[i].id == id);
        assert forall|x: u32| #[trigger] after.is_completed(x) implies x == id
            || l.is_completed(x) by {
            lemma_update_completed(l, id, status, result, error, times, x);
        }
        assert forall|j: int|
            0 <= j < after.items.len() && (#[trigger] after.items[j]).status
                == TodoStatus::Pending implies !after.all_completed(after.items[j].depends_on) by {
            let deps = l.items[j].depends_on;
            assert(after.items[j].depends_on == deps);
            let k = choose|k: int| 0 <= k < deps.len() && !l.is_completed(#[trigger] deps[k]);
            if j == i {
                assert(0 <= k < deps.len() && !l.is_completed(deps[k]));
                assert(deps[k] < l.items[j].id);
                assert(!after.is_completed(deps[k]));
            } else {
                assert(l.items[j].id != id);
                assert(l.items[j].status == TodoStatus::Pending);
                if status == TodoStatus::Completed {
                    law_completion_releases_dependents(l, id, result, error, times, j);
                    if !deps.contains(id) {
                        assert(!after.is_completed(deps[k]));
                    }
                } else {
                    lemma_update_completed(l, id, status, result, error, times, deps[k]);
                    assert(!after.is_completed(deps[k]));
                }
            }
        }
    }
}

proof fn lemma_work_below(l: TodoListView, j: int)
    requires
        l.wf(),
        pending_waits(l),
        forall|i: int|
            0 <= i < l.items.len() ==> (#[trigger] l.items[i]).status != TodoStatus::Failed
                && l.items[i].status != TodoStatus::Skipped,
        0 <= j < l.items.len(),
        l.items[j].status != TodoStatus::Completed,
    ensures
        exists|i: int|
            0 <= i < l.items.len() && ((#[trigger] l.items[i]).status == TodoStatus::Ready
                || l.items[i].status == TodoStatus::InProgress),
    decreases j,
{
    if l.items[j].status == TodoStatus::Pending {
        let deps = l.items[j].depends_on;
        let k = choose|k: int| 0 <= k < deps.len() && !l.is_completed(#[trigger] deps[k]);
        let i = deps[k] - l.first_id();
        assert(l.first_id() <= l.items[j].depends_on[k] < l.items[j].id);
        assert(l.items[i].id == deps[k]);
        lemma_completed(l, i);
        lemma_work_below(l, i);
    }
}

/// As long as nothing has failed or been skipped and pending items wait for
/// something, a list that is not done has an item that is ready or in progress:
/// dependencies alone never bring it to a halt.
pub proof fn law_no_deadlock(l: TodoListView)
    requires
        l.wf(),
        pending_waits(l),
        forall|i: int|
            0 <= i < l.items.len() ==> (#[trigger] l.items[i]).status != TodoStatus::Failed
                && l.items[i].status != TodoStatus::Skipped,
        !l.all_terminal(),
    ensures
        exists|i: int|
            0 <= i < l.items.len() && ((#[trigger] l.items[i]).status == TodoStatus::Ready
                || l.items[i].status == TodoStatus::InProgress),
{
    let j = choose|j: int|
        0 <= j < l.items.len() && !status::terminal((#[trigger] l.items[j]).status);
    lemma_work_below(l, j);
}

/// The items offered for scheduling are just the ready ones whose dependencies
/// are all completed.
pub proof fn law_ready_items(l: TodoListView, it: TodoItemView)
    ensures
        l.ready().contains(it) <==> l.items.contains(it) && it.status == TodoStatus::Ready
            && l.all_completed(it.depends_on),
{
    lemmas::lemma_filter_contains(l.items, l.schedulable(), it);
}

/// Where ready items are never ready too early, all of them are offered for
/// scheduling.
pub proof fn law_sound_ready_items_are_offered(l: TodoListView)
    requires
        ready_is_sound(l),
    ensures
        l.ready() == l.items.filter(TodoItemView::has_status(TodoStatus::Ready)),
{
    lemma_same_filter(
        l.items,
        l.items.len() as int,
        l.schedulable(),
        TodoItemView::has_status(TodoStatus::Ready),
    );
    assert(l.items.take(l.items.len() as int) =~= l.items);
}

proof fn lemma_same_filter(
    s: Seq<TodoItemView>,
    n: int,
    p: spec_fn(TodoItemView) -> bool,
    q: spec_fn(TodoItemView) -> bool,
)
    requires
        0 <= n <= s.len(),
        forall|i: int| 0 <= i < s.len() ==> p(#[trigger] s[i]) == q(s[i]),
    ensures
        s.take(n).filter(p) == s.take(n).filter(q),
    decreases n,
{
    reveal(Seq::filter);
    if n > 0 {
        lemma_same_filter(s, n - 1, p, q);
        lemmas::lemma_filter_step(s, p, n - 1);
        lemmas::lemma_filter_step(s, q, n - 1);
    }
}

/// A list that is done has nothing to schedule and nothing running.
pub proof fn law_done_is_idle(l: TodoListView)
    requires
        l.all_terminal(),
    ensures
        l.ready().len() == 0,
        l.running().len() == 0,
{
    if l.ready().len() > 0 {
        let it = l.ready()[0];
        assert(l.ready().contains(it));
        lemmas::lemma_filter_contains(l.items, l.schedulable(), it);
    }
    if l.running().len() > 0 {
        let it = l.running()[0];
        assert(l.running().contains(it));
        lemmas::lemma_filter_contains(
            l.items,
            TodoItemView::has_status(TodoStatus::InProgress),
            it,
        );
    }
}

/// Every item that a status report brings to a terminal status, by itself or
/// downstream, is stamped with the time of it.
pub proof fn law_reports_stamp_terminal_items(
    l: TodoListView,
    id: u32,
    status: TodoStatus,
    result: Option<Seq<char>>,
    error: Option<Seq<char>>,
    times: DagTimes,
    j: int,
)
    requires
        0 <= j < l.items.len(),
    ensures
        ({
            let after = l.dag_updated(id, status, result, error, times).items[j];
            status::terminal(after.status) && !status::terminal(l.items[j].status)
                ==> after.completed_at == Some(
                if l.items[j].id == id {
                    times.stamp
                } else {
                    times.skips[j]
                },
            )
        }),
{
}

/// The completion percentage is at most 100. It is the whole number nearest to the
/// true percentage, the larger of two as near. It is 100 if all items are
/// completed and there are any, and 0 if none is.
pub proof fn law_percentage(l: TodoListView)
    ensures
        l.percentage() <= 100,
        l.items.len() > 0 ==> 2 * l.items.len() * l.percentage() <= 200 * l.completed_count()
            + l.items.len() < 2 * l.items.len() * (l.percentage() + 1),
        l.items.len() > 0 && (forall|j: int|
            0 <= j < l.items.len() ==> (#[trigger] l.items[j]).status == TodoStatus::Completed)
            ==> l.percentage() == 100,
        (forall|j: int|
            0 <= j < l.items.len() ==> (#[trigger] l.items[j]).status != TodoStatus::Completed)
            ==> l.percentage() == 0,
{
    let done = TodoItemView::has_status(TodoStatus::Completed);
    let n = l.items.len();
    let c = l.completed_count();
    lemma_count_bounds(l.items, n as int, done);
    assert(l.items.take(n as int) =~= l.items);
    if n > 0 {
        lemmas::lemma_percentage_bound(c as int, n as int);
        let r = l.percentage();
        assert(2 * n * r <= 200 * c + n < 2 * n * (r + 1)) by (nonlinear_arith)
            requires
                n > 0,
                r == (100 * c + n / 2) / n,
        ;
        if c == n {
            assert((100 * c + n / 2) / n >= 100) by (nonlinear_arith)
                requires
                    c == n,
                    n > 0,
            ;
        }
        if c == 0 {
            assert((100 * c + n / 2) / n == 0) by (nonlinear_arith)
                requires
                    c == 0,
                    n > 0,
            ;
        }
    }
}

proof fn lemma_count_bounds(s: Seq<TodoItemView>, n: int, p: spec_fn(TodoItemView) -> bool)
    requires
        0 <= n <= s.len(),
    ensures
        s.take(n).filter(p).len() <= n,
        (forall|j: int| 0 <= j < n ==> p(#[trigger] s[j])) ==> s.take(n).filter(p).len() == n,
        (forall|j: int| 0 <= j < n ==> !p(#[trigger] s[j])) ==> s.take(n).filter(p).len() == 0,
    decreases n,
{
    reveal(Seq::filter);
    if n > 0 {
        lemma_count_bounds(s, n - 1, p);
        lemmas::lemma_filter_step(s, p, n - 1);
    }
}

} // verus!
