//! Facts about the list model that the proofs of the operations share.
use vstd::prelude::*;

use crate::graph;
use crate::item::TodoItemView;
use crate::model::TodoListView;

verus! {

/// Two lists with the same ids and dependencies are well formed together.
pub(crate) proof fn lemma_same_shape(a: TodoListView, b: TodoListView)
    requires
        a.wf(),
        a.next_id == b.next_id,
        a.items.len() == b.items.len(),
        forall|j: int|
            0 <= j < a.items.len() ==> (#[trigger] b.items[j]).id == a.items[j].id
                && b.items[j].depends_on == a.items[j].depends_on,
    ensures
        b.wf(),
{
    assert forall|j: int, k: int|
        0 <= j < b.items.len() && 0 <= k < b.items[j].depends_on.len() implies b.first_id()
        <= #[trigger] b.items[j].depends_on[k] < b.items[j].id by {
        assert(a.items[j].depends_on[k] == b.items[j].depends_on[k]);
    }
}

/// In a well-formed list the ids are distinct, and an id is in the list just
/// if it lies between the first and the next one.
pub(crate) proof fn lemma_ids(l: TodoListView, id: u32)
    requires
        l.wf(),
    ensures
        graph::distinct_ids(l.items),
        graph::has_id(l.items, id) <==> l.first_id() <= id < l.next_id,
        graph::has_id(l.items, id) <==> l.lookup(id) is Some,
        l.lookup(id) matches Some(it) ==> it.id == id,
{
    if l.first_id() <= id < l.next_id {
        assert(l.items[id - l.first_id()].id == id);
    }
}

/// Without a missing dependency all dependencies are items of the list.
pub(crate) proof fn lemma_none_missing(l: TodoListView, depends_on: Seq<u32>, k: int)
    requires
        l.first_missing(depends_on) is None,
        0 <= k < depends_on.len(),
    ensures
        graph::has_id(l.items, depends_on[k]),
    decreases depends_on.len(),
{
    if k > 0 {
        lemma_none_missing(l, depends_on.drop_first(), k - 1);
    }
}

/// A dependency that is missing after a run of present ones is the first.
pub(crate) proof fn lemma_first_missing(l: TodoListView, depends_on: Seq<u32>, k: int)
    requires
        0 <= k <= depends_on.len(),
        forall|i: int| 0 <= i < k ==> graph::has_id(l.items, #[trigger] depends_on[i]),
    ensures
        l.first_missing(depends_on) == l.first_missing(depends_on.skip(k)),
    decreases k,
{
    if k == 0 {
        assert(depends_on.skip(0) =~= depends_on);
    } else {
        assert(graph::has_id(l.items, depends_on[0]));
        let rest = depends_on.drop_first();
        assert forall|i: int| 0 <= i < k - 1 implies graph::has_id(
            l.items,
            #[trigger] rest[i],
        ) by {
            assert(rest[i] == depends_on[i + 1]);
        }
        lemma_first_missing(l, rest, k - 1);
        assert(rest.skip(k - 1) =~= depends_on.skip(k));
    }
}

/// Filtering one element more.
pub(crate) proof fn lemma_filter_step(s: Seq<TodoItemView>, p: spec_fn(TodoItemView) -> bool, i: int)
    requires
        0 <= i < s.len(),
    ensures
        s.take(i + 1).filter(p) == if p(s[i]) {
            s.take(i).filter(p).push(s[i])
        } else {
            s.take(i).filter(p)
        },
{
    reveal(Seq::filter);
    assert(s.take(i + 1).drop_last() =~= s.take(i));
}

/// What is left by a filter is what was there and passes.
pub(crate) proof fn lemma_filter_contains(
    s: Seq<TodoItemView>,
    p: spec_fn(TodoItemView) -> bool,
    it: TodoItemView,
)
    ensures
        s.filter(p).contains(it) <==> s.contains(it) && p(it),
{
    if s.filter(p).contains(it) {
        s.lemma_filter_contains_rev(p, it);
        let i = choose|i: int| 0 <= i < s.filter(p).len() && s.filter(p)[i] == it;
        s.lemma_filter_pred(p, i);
    }
    if s.contains(it) && p(it) {
        let i = choose|i: int| 0 <= i < s.len() && s[i] == it;
        s.lemma_filter_contains(p, i);
    }
}

/// Rounding a part of a whole gives at most 100 percent.
pub(crate) proof fn lemma_percentage_bound(completed: int, total: int)
    requires
        0 <= completed <= total,
        0 < total,
    ensures
        0 <= (100 * completed + total / 2) / total <= 100,
{
    assert((100 * completed + total / 2) / total <= 100) by (nonlinear_arith)
        requires
            0 <= completed <= total,
            0 < total,
    ;
    assert(0 <= (100 * completed + total / 2) / total) by (nonlinear_arith)
        requires
            0 <= completed <= total,
            0 < total,
    ;
}

} // verus!
