//! The dependency graph of a sequence of items, and the search for cycles in it.
use std::collections::{HashSet, VecDeque};

use vstd::prelude::*;

use crate::item;
use crate::item::{TodoItem, TodoItemView};

verus! {

/// The item with id `a` lists `b` among its dependencies.
pub open spec fn depends(items: Seq<TodoItemView>, a: u32, b: u32) -> bool {
    exists|j: int|
        0 <= j < items.len() && (#[trigger] items[j]).id == a && items[j].depends_on.contains(b)
}

/// `b` is reached from `a` by following `n` dependencies.
pub open spec fn reaches_in(
    items: Seq<TodoItemView>,
    a: u32,
    b: u32,
    n: nat,
) -> bool
    decreases n,
{
    if n == 0 {
        a == b
    } else {
        exists|m: u32|
            reaches_in(items, a, m, (n - 1) as nat) && #[trigger] depends(items, m, b)
    }
}

/// `b` is reached from `a` by following dependencies, or is `a` itself.
pub open spec fn reaches(items: Seq<TodoItemView>, a: u32, b: u32) -> bool {
    exists|n: nat| reaches_in(items, a, b, n)
}

/// An item `new_id` with the dependencies `depends_on` would be among its own
/// ancestors.
pub open spec fn creates_cycle(
    items: Seq<TodoItemView>,
    new_id: u32,
    depends_on: Seq<u32>,
) -> bool {
    exists|k: int| 0 <= k < depends_on.len() && reaches(items, #[trigger] depends_on[k], new_id)
}

/// No two items have the same id.
pub open spec fn distinct_ids(items: Seq<TodoItemView>) -> bool {
    forall|i: int, j: int|
        0 <= i < items.len() && 0 <= j < items.len() && (#[trigger] items[i]).id == (
        #[trigger] items[j]).id ==> i == j
}

/// Some item has the id `id`.
pub open spec fn has_id(items: Seq<TodoItemView>, id: u32) -> bool {
    exists|j: int| 0 <= j < items.len() && (#[trigger] items[j]).id == id
}

proof fn lemma_reaches_step(
    items: Seq<TodoItemView>,
    a: u32,
    m: u32,
    b: u32,
)
    requires
        reaches(items, a, m),
        depends(items, m, b),
    ensures
        reaches(items, a, b),
{
    let n = choose|n: nat| reaches_in(items, a, m, n);
    assert(reaches_in(items, a, m, ((n + 1) - 1) as nat));
    assert(reaches_in(items, a, b, n + 1));
}

/// A set that holds `a` and, with an id, everything it depends on, holds all
/// that `a` reaches.
proof fn lemma_closed_set(
    items: Seq<TodoItemView>,
    closed: Set<u32>,
    a: u32,
    b: u32,
    n: nat,
)
    requires
        closed.contains(a),
        forall|v: u32, w: u32|
            closed.contains(v) && #[trigger] depends(items, v, w) ==> closed.contains(w),
        reaches_in(items, a, b, n),
    ensures
        closed.contains(b),
    decreases n,
{
    if n > 0 {
        let m = choose|m: u32|
            reaches_in(items, a, m, (n - 1) as nat) && #[trigger] depends(items, m, b);
        lemma_closed_set(items, closed, a, m, (n - 1) as nat);
    }
}

proof fn lemma_reaches_prepend(
    items: Seq<TodoItemView>,
    a: u32,
    m: u32,
    b: u32,
    n: nat,
)
    requires
        depends(items, a, m),
        reaches_in(items, m, b, n),
    ensures
        reaches_in(items, a, b, n + 1),
    decreases n,
{
    if n == 0 {
        assert(reaches_in(items, a, a, 0));
    } else {
        let c = choose|c: u32|
            reaches_in(items, m, c, (n - 1) as nat) && #[trigger] depends(items, c, b);
        lemma_reaches_prepend(items, a, m, c, (n - 1) as nat);
        assert(reaches_in(items, a, c, ((n + 1) - 1) as nat));
    }
}

/// Cycles come from the dependencies and theirs, and from nothing else.
pub(crate) proof fn lemma_cycle_facts(
    items: Seq<TodoItemView>,
    new_id: u32,
    depends_on: Seq<u32>,
    j: int,
    ancestors: Set<u32>,
)
    ensures
        depends_on.contains(new_id) ==> creates_cycle(items, new_id, depends_on),
        0 <= j < items.len() && depends_on.contains(items[j].id) && creates_cycle(
            items,
            new_id,
            items[j].depends_on,
        ) ==> creates_cycle(items, new_id, depends_on),
        (forall|k: int| 0 <= k < depends_on.len() ==> ancestors.contains(#[trigger] depends_on[k]))
            && (forall|m: int, k: int|
            0 <= m < items.len() && 0 <= k < items[m].depends_on.len() && ancestors.contains(
                items[m].id,
            ) ==> ancestors.contains(#[trigger] items[m].depends_on[k])) && !ancestors.contains(
            new_id,
        ) ==> !creates_cycle(items, new_id, depends_on),
{
    if depends_on.contains(new_id) {
        let k = choose|k: int| 0 <= k < depends_on.len() && depends_on[k] == new_id;
        assert(reaches_in(items, depends_on[k], new_id, 0));
        assert(reaches(items, depends_on[k], new_id));
    }
    if 0 <= j < items.len() && depends_on.contains(items[j].id) && creates_cycle(
        items,
        new_id,
        items[j].depends_on,
    ) {
        let deps = items[j].depends_on;
        let k = choose|k: int|
            0 <= k < deps.len() && reaches(items, #[trigger] deps[k], new_id);
        let n = choose|n: nat| reaches_in(items, deps[k], new_id, n);
        assert(deps.contains(deps[k]));
        assert(depends(items, items[j].id, deps[k]));
        lemma_reaches_prepend(items, items[j].id, deps[k], new_id, n);
        let i = choose|i: int| 0 <= i < depends_on.len() && depends_on[i] == items[j].id;
        assert(reaches(items, depends_on[i], new_id));
    }
    if (forall|k: int| 0 <= k < depends_on.len() ==> ancestors.contains(#[trigger] depends_on[k]))
        && (forall|m: int, k: int|
        0 <= m < items.len() && 0 <= k < items[m].depends_on.len() && ancestors.contains(
            items[m].id,
        ) ==> ancestors.contains(#[trigger] items[m].depends_on[k])) && creates_cycle(
        items,
        new_id,
        depends_on,
    ) {
        let k = choose|k: int|
            0 <= k < depends_on.len() && reaches(items, #[trigger] depends_on[k], new_id);
        let n = choose|n: nat| reaches_in(items, depends_on[k], new_id, n);
        assert forall|v: u32, w: u32|
            ancestors.contains(v) && #[trigger] depends(items, v, w) implies ancestors.contains(
            w,
        ) by {
            let m = choose|m: int|
                0 <= m < items.len() && (#[trigger] items[m]).id == v
                    && items[m].depends_on.contains(w);
            let i = choose|i: int|
                0 <= i < items[m].depends_on.len() && items[m].depends_on[i] == w;
            assert(ancestors.contains(items[m].depends_on[i]));
        }
        lemma_closed_set(items, ancestors, depends_on[k], new_id, n);
    }
}

/// A set of numbers below `n` has at most `n` elements.
proof fn lemma_bounded_set(s: Set<u32>, n: nat)
    requires
        s.finite(),
        forall|v: u32| s.contains(v) ==> v < n,
        n <= 0x1_0000_0000,
    ensures
        s.len() <= n,
    decreases n,
{
    if n == 0 {
        assert(s =~= Set::empty());
    } else {
        let top = (n - 1) as u32;
        lemma_bounded_set(s.remove(top), (n - 1) as nat);
    }
}

/// The place of the first item with the id `id`.
pub(crate) fn find_item(items: &Vec<TodoItem>, id: u32) -> (r: Option<usize>)
    ensures
        match r {
            Some(i) => i < items@.len() && items@[i as int].id == id && forall|j: int|
                0 <= j < i ==> (#[trigger] items@[j]).id != id,
            None => forall|j: int| 0 <= j < items@.len() ==> (#[trigger] items@[j]).id != id,
        },
        r is Some <==> has_id(item::item_views(items@), id),
{
    let ghost vs = item::item_views(items@);
    let mut i: usize = 0;
    while i < items.len()
        invariant
            i <= items@.len(),
            vs == item::item_views(items@),
            forall|j: int| 0 <= j < i ==> (#[trigger] items@[j]).id != id,
        decreases items@.len() - i,
    {
        if items[i].id == id {
            assert(vs[i as int].id == id);
            return Some(i);
        }
        i += 1;
    }
    assert forall|j: int| 0 <= j < vs.len() implies (#[trigger] vs[j]).id != id by {
        assert(items@[j]@ == vs[j]);
    }
    None
}

/// Whether the ids hold `id`.
pub(crate) fn contains_id(ids: &Vec<u32>, id: u32) -> (r: bool)
    ensures
        r == ids@.contains(id),
{
    let mut i: usize = 0;
    while i < ids.len()
        invariant
            i <= ids@.len(),
            forall|j: int| 0 <= j < i ==> ids@[j] != id,
        decreases ids@.len() - i,
    {
        if ids[i] == id {
            return true;
        }
        i += 1;
    }
    false
}

/// Whether `target` is reached from `start` by following dependencies. Searches
/// breadth first.
pub(crate) fn reaches_item(items: &Vec<TodoItem>, start: u32, target: u32) -> (r: bool)
    requires
        distinct_ids(item::item_views(items@)),
    ensures
        r == reaches(item::item_views(items@), start, target),
{
    broadcast use vstd::std_specs::hash::group_hash_axioms;

    let ghost vs = item::item_views(items@);
    let mut queue: VecDeque<u32> = VecDeque::new();
    let mut visited: HashSet<u32> = HashSet::new();
    queue.push_back(start);
    visited.insert(start);
    proof {
        assert(reaches_in(vs, start, start, 0));
        assert(queue@[0] == start);
    }
    while queue.len() > 0
        invariant
            vs == item::item_views(items@),
            distinct_ids(vs),
            visited@.finite(),
            visited@.contains(start),
            forall|v: u32| #[trigger] visited@.contains(v) ==> reaches(vs, start, v),
            forall|v: u32| #[trigger] queue@.contains(v) ==> visited@.contains(v),
            forall|v: u32, w: u32|
                visited@.contains(v) && !queue@.contains(v) && #[trigger] depends(vs, v, w)
                    ==> visited@.contains(w),
            forall|v: u32| #[trigger]
                visited@.contains(v) && !queue@.contains(v) ==> v != target,
        decreases 0x1_0000_0000 - visited@.len(), queue@.len(),
    {
        broadcast use vstd::std_specs::hash::group_hash_axioms;

        let ghost queue0 = queue@;
        let ghost visited0 = visited@;
        if let Some(current) = queue.pop_front() {
            proof {
                assert(queue0.contains(current));
                assert forall|v: u32| v != current && queue0.contains(v) implies queue@.contains(
                    v,
                ) by {
                    let i = choose|i: int| 0 <= i < queue0.len() && queue0[i] == v;
                    assert(queue@[i - 1] == v);
                }
                assert forall|v: u32| #[trigger] queue@.contains(v) implies queue0.contains(v) by {
                    let i = choose|i: int| 0 <= i < queue@.len() && queue@[i] == v;
                    assert(queue0[i + 1] == v);
                }
            }
            if current == target {
                return true;
            }
            if let Some(at) = find_item(items, current) {
                let mut k: usize = 0;
                while k < items[at].depends_on.len()
                    invariant
                        vs == item::item_views(items@),
                        distinct_ids(vs),
                        at < items@.len(),
                        items@[at as int].id == current,
                        k <= items@[at as int].depends_on@.len(),
                        current != target,
                        visited0.finite(),
                        visited@.finite(),
                        visited0.subset_of(visited@),
                        visited@.contains(start),
                        visited@.contains(current),
                        forall|v: u32| #[trigger]
                            visited@.contains(v) ==> reaches(vs, start, v),
                        forall|v: u32| #[trigger] queue@.contains(v) ==> visited@.contains(v),
                        forall|v: u32, w: u32|
                            visited@.contains(v) && !queue@.contains(v) && v != current
                                && #[trigger] depends(vs, v, w) ==> visited@.contains(w),
                        forall|j: int|
                            0 <= j < k ==> visited@.contains(
                                #[trigger] items@[at as int].depends_on@[j],
                            ),
                        forall|v: u32| #[trigger]
                            visited@.contains(v) && !queue@.contains(v) ==> v != target,
                        visited@.len() >= visited0.len(),
                        visited@.len() == visited0.len() ==> queue@.len() < queue0.len(),
                    decreases items@[at as int].depends_on@.len() - k,
                {
                    broadcast use vstd::std_specs::hash::group_hash_axioms;

                    let dep: u32 = items[at].depends_on[k];
                    let ghost queue1 = queue@;
                    proof {
                        assert(vs[at as int].depends_on.contains(dep));
                        assert(depends(vs, current, dep));
                        lemma_reaches_step(vs, start, current, dep);
                    }
                    if visited.insert(dep) {
                        queue.push_back(dep);
                        proof {
                            assert(queue@[queue1.len() as int] == dep);
                            assert forall|v: u32| queue1.contains(v) implies queue@.contains(v) by {
                                let i = choose|i: int| 0 <= i < queue1.len() && queue1[i] == v;
                                assert(queue@[i] == v);
                            }
                            assert forall|v: u32| #[trigger] queue@.contains(v) implies v == dep
                                || queue1.contains(v) by {
                                let i = choose|i: int| 0 <= i < queue@.len() && queue@[i] == v;
                                if i < queue1.len() {
                                    assert(queue1[i] == v);
                                }
                            }
                        }
                    }
                    k += 1;
                }
                proof {
                    assert forall|w: u32| #[trigger] depends(vs, current, w) implies visited@.contains(
                        w,
                    ) by {
                        let j = choose|j: int|
                            0 <= j < vs.len() && (#[trigger] vs[j]).id == current
                                && vs[j].depends_on.contains(w);
                        assert(vs[j].id == vs[at as int].id);
                        let i = choose|i: int|
                            0 <= i < vs[j].depends_on.len() && vs[j].depends_on[i] == w;
                        assert(items@[at as int].depends_on@[i] == w);
                    }
                }
            } else {
                proof {
                    assert forall|w: u32| !#[trigger] depends(vs, current, w) by {
                        if depends(vs, current, w) {
                            let j = choose|j: int|
                                0 <= j < vs.len() && (#[trigger] vs[j]).id == current
                                    && vs[j].depends_on.contains(w);
                            assert(items@[j].id == current);
                        }
                    }
                }
            }
            proof {
                lemma_bounded_set(visited@, 0x1_0000_0000);
                lemma_bounded_set(visited0, 0x1_0000_0000);
            }
        }
    }
    proof {
        assert(queue@.len() == 0);
        if reaches(vs, start, target) {
            let n = choose|n: nat| reaches_in(vs, start, target, n);
            lemma_closed_set(vs, visited@, start, target, n);
            assert(false);
        }
    }
    false
}

} // verus!
