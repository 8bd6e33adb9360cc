use vstd::prelude::*;
use crate::task::{Task, TaskView, PENDING, COMPLETED};
use crate::store::{add_post, completed, records_view, removed, task_at};
use crate::listing::{decimal, line_of, listing, Filter};

verus! {

/// Listing everything shows every task, the task with identifier `i` on line `i`.
pub proof fn lemma_listing_all(s: Seq<TaskView>)
    ensures
        listing(s, Filter::All).len() == s.len(),
        forall|i: int| 0 <= i < s.len() ==> #[trigger] listing(s, Filter::All)[i] == line_of((i + 1) as nat, s[i]),
    decreases s.len(),
{
    if s.len() > 0 {
        lemma_listing_all(s.drop_last());
    }
}

/// After `k` adds from an empty store, the store holds `k` pending tasks
/// described by the first `k` descriptions, in order.
proof fn lemma_adds_prefix(states: Seq<Seq<TaskView>>, descs: Seq<Seq<char>>, k: int)
    requires
        states.len() == descs.len() + 1,
        states[0] == Seq::<TaskView>::empty(),
        forall|j: int| 0 <= j < descs.len() ==> add_post(states[j], descs[j], #[trigger] states[j + 1]),
        0 <= k <= descs.len(),
    ensures
        states[k].len() == k,
        forall|i: int| 0 <= i < k ==> (#[trigger] states[k][i]).description == descs[i] && states[k][i].status == PENDING,
    decreases k,
{
    if k > 0 {
        lemma_adds_prefix(states, descs, k - 1);
        assert(add_post(states[k - 1], descs[k - 1], states[k]));
        assert forall|i: int| 0 <= i < k implies (#[trigger] states[k][i]).description == descs[i] && states[k][i].status == PENDING by {
            if i < k - 1 {
                assert(states[k][i] == states[k].drop_last()[i]);
            }
        }
    }
}

/// Adding `N` descriptions one after another to an empty store, then listing
/// without a filter, gives exactly `N` lines: line `i` shows identifier `i`,
/// the `i`-th description added and the pending glyph.
pub proof fn lemma_list_after_adds(states: Seq<Seq<TaskView>>, descs: Seq<Seq<char>>)
    requires
        states.len() == descs.len() + 1,
        states[0] == Seq::<TaskView>::empty(),
        forall|j: int| 0 <= j < descs.len() ==> add_post(states[j], descs[j], #[trigger] states[j + 1]),
    ensures
        listing(states.last(), Filter::All).len() == descs.len(),
        forall|i: int| 0 <= i < descs.len() ==> #[trigger] listing(states.last(), Filter::All)[i]
            == decimal((i + 1) as nat) + " - "@ + descs[i] + " ["@ + seq![PENDING] + "]"@,
{
    lemma_adds_prefix(states, descs, descs.len() as int);
    lemma_listing_all(states.last());
    assert forall|i: int| 0 <= i < descs.len() implies #[trigger] listing(states.last(), Filter::All)[i]
        == decimal((i + 1) as nat) + " - "@ + descs[i] + " ["@ + seq![PENDING] + "]"@ by {
        assert(states.last() == states[descs.len() as int]);
        assert(states.last()[i].description == descs[i]);
    }
}

/// Saving a store's records and loading them back gives the same records,
/// in the same order, under the same identifiers `1..N`.
pub proof fn lemma_save_load_round_trip(store: Seq<TaskView>, saved: Seq<Task>, loaded: Seq<TaskView>)
    requires
        records_view(saved) == store,
        loaded == records_view(saved),
    ensures
        loaded == store,
        forall|id: int| #[trigger] task_at(loaded, id) == task_at(store, id),
        forall|id: int| 1 <= id <= saved.len() ==> #[trigger] task_at(loaded, id) == Some(saved[id - 1]@),
{
}

/// Completing a task twice: the first time marks it completed, the second
/// succeeds and changes nothing.
pub proof fn lemma_complete_idempotent(s: Seq<TaskView>, id: int)
    requires
        completed(s, id) is Some,
    ensures
        completed(s, id)->Some_0[id - 1].status == COMPLETED,
        completed(completed(s, id)->Some_0, id) == completed(s, id),
{
    let s1 = completed(s, id)->Some_0;
    assert(s1.update(id - 1, s1[id - 1]) =~= s1);
}

/// Removing an identifier that names no task leaves the store unchanged.
pub proof fn lemma_remove_absent(s: Seq<TaskView>, id: int)
    requires
        task_at(s, id) is None,
    ensures
        removed(s, id) == s,
{
}

/// Completing an identifier that names no task always fails.
pub proof fn lemma_complete_absent(s: Seq<TaskView>, id: int)
    requires
        task_at(s, id) is None,
    ensures
        completed(s, id) is None,
{
}

} // verus!
