//! The table of probes that were sent and not yet answered.

use std::collections::HashMap;
use vstd::prelude::*;

verus! {

broadcast use vstd::std_specs::hash::group_hash_axioms;

/// For each outstanding probe, by its identity, the time at which it was
/// sent. An entry stays until its answer is taken out.
pub struct PendingTable {
    entries: HashMap<u64, u64>,
}

impl View for PendingTable {
    type V = Map<u64, u64>;

    closed spec fn view(&self) -> Map<u64, u64> {
        self.entries@
    }
}

/// The table after the probes `ids` were entered one after the other, the
/// `i`-th as sent at `times[i]`.
pub open spec fn inserted_all(table: Map<u64, u64>, ids: Seq<u64>, times: Seq<u64>) -> Map<u64, u64>
    decreases ids.len(),
{
    if ids.len() == 0 {
        table
    } else {
        inserted_all(table, ids.drop_last(), times).insert(ids.last(), times[ids.len() - 1])
    }
}

/// The table after the probes `ids` were taken out one after the other.
pub open spec fn removed_all(table: Map<u64, u64>, ids: Seq<u64>) -> Map<u64, u64>
    decreases ids.len(),
{
    if ids.len() == 0 {
        table
    } else {
        removed_all(table, ids.drop_last()).remove(ids.last())
    }
}

/// A probe is among `ids` either as the last of them or among the others.
proof fn lemma_contains_last(ids: Seq<u64>, id: u64)
    requires
        ids.len() > 0,
    ensures
        ids.contains(id) <==> (ids.drop_last().contains(id) || id == ids.last()),
{
    let front = ids.drop_last();
    if ids.contains(id) {
        let i = choose|i: int| 0 <= i < ids.len() && ids[i] == id;
        if i < ids.len() - 1 {
            assert(front[i] == id);
        }
    }
    if front.contains(id) {
        let i = choose|i: int| 0 <= i < front.len() && front[i] == id;
        assert(ids[i] == id);
    }
    if id == ids.last() {
        assert(ids[ids.len() - 1] == id);
    }
}

/// Entering probes adds their identities to the table and leaves every other
/// entry as it was.
proof fn lemma_inserted_all(table: Map<u64, u64>, ids: Seq<u64>, times: Seq<u64>, id: u64)
    ensures
        inserted_all(table, ids, times).contains_key(id) <==> (table.contains_key(id)
            || ids.contains(id)),
        !ids.contains(id) && table.contains_key(id) ==> inserted_all(table, ids, times)[id]
            == table[id],
    decreases ids.len(),
{
    if ids.len() > 0 {
        lemma_inserted_all(table, ids.drop_last(), times, id);
        lemma_contains_last(ids, id);
    }
}

/// Taking probes out removes their identities from the table and leaves
/// every other entry as it was.
proof fn lemma_removed_all(table: Map<u64, u64>, ids: Seq<u64>, id: u64)
    ensures
        removed_all(table, ids).contains_key(id) <==> (table.contains_key(id) && !ids.contains(
            id,
        )),
        !ids.contains(id) && table.contains_key(id) ==> removed_all(table, ids)[id] == table[id],
    decreases ids.len(),
{
    if ids.len() > 0 {
        lemma_removed_all(table, ids.drop_last(), id);
        lemma_contains_last(ids, id);
    }
}

/// When every probe that was entered is taken out again, in whatever order,
/// the table is what it was without those probes.
pub proof fn lemma_answered_probes_leave(
    table: Map<u64, u64>,
    ids: Seq<u64>,
    times: Seq<u64>,
    order: Seq<u64>,
)
    requires
        order.to_multiset() == ids.to_multiset(),
    ensures
        removed_all(inserted_all(table, ids, times), order) == table.remove_keys(ids.to_set()),
{
    let filled = inserted_all(table, ids, times);
    let left = removed_all(filled, order);
    let expected = table.remove_keys(ids.to_set());
    assert forall|id: u64| #[trigger] left.contains_key(id) <==> expected.contains_key(id) by {
        lemma_inserted_all(table, ids, times, id);
        lemma_removed_all(filled, order, id);
        vstd::seq_lib::to_multiset_contains(order, id);
        vstd::seq_lib::to_multiset_contains(ids, id);
    }
    assert forall|id: u64| #[trigger] left.contains_key(id) implies left[id] == expected[id] by {
        lemma_inserted_all(table, ids, times, id);
        lemma_removed_all(filled, order, id);
        vstd::seq_lib::to_multiset_contains(order, id);
        vstd::seq_lib::to_multiset_contains(ids, id);
    }
    assert(left =~= expected);
}

/// Probes that are entered into an empty table and then all taken out, in
/// whatever order, leave the table empty. `order` is any rearrangement of
/// `ids`.
pub proof fn lemma_all_answered_leaves_empty(ids: Seq<u64>, times: Seq<u64>, order: Seq<u64>)
    requires
        order.to_multiset() == ids.to_multiset(),
    ensures
        removed_all(inserted_all(Map::<u64, u64>::empty(), ids, times), order) == Map::<
            u64,
            u64,
        >::empty(),
{
    lemma_answered_probes_leave(Map::<u64, u64>::empty(), ids, times, order);
    assert(Map::<u64, u64>::empty().remove_keys(ids.to_set()) =~= Map::<u64, u64>::empty());
}

/// Taking out a probe that the table does not hold changes nothing.
pub proof fn lemma_remove_absent(table: Map<u64, u64>, id: u64)
    requires
        !table.contains_key(id),
    ensures
        table.remove(id) == table,
{
    assert(table.remove(id) =~= table);
}

impl PendingTable {
    /// A table without entries.
    pub fn new() -> (table: PendingTable)
        ensures
            table@ == Map::<u64, u64>::empty(),
    {
        PendingTable { entries: HashMap::new() }
    }

    /// Enters the probe `id` as sent at `sent_at_us`, and returns the send
    /// time that the table held for `id` before.
    pub fn insert(&mut self, id: u64, sent_at_us: u64) -> (before: Option<u64>)
        ensures
            final(self)@ == old(self)@.insert(id, sent_at_us),
            before == (if old(self)@.contains_key(id) {
                Some(old(self)@[id])
            } else {
                None
            }),
    {
        self.entries.insert(id, sent_at_us)
    }

    /// Takes the probe `id` out and returns its send time. A probe that the
    /// table does not hold leaves the table as it is.
    pub fn remove(&mut self, id: u64) -> (sent_at_us: Option<u64>)
        ensures
            final(self)@ == old(self)@.remove(id),
            sent_at_us == (if old(self)@.contains_key(id) {
                Some(old(self)@[id])
            } else {
                None
            }),
            !old(self)@.contains_key(id) ==> final(self)@ == old(self)@,
    {
        let sent = self.entries.remove(&id);
        proof {
            if !old(self)@.contains_key(id) {
                assert(old(self)@.remove(id) =~= old(self)@);
            }
        }
        sent
    }

    /// The send time of the probe `id`, if it is outstanding.
    pub fn get(&self, id: u64) -> (sent_at_us: Option<u64>)
        ensures
            sent_at_us == (if self@.contains_key(id) {
                Some(self@[id])
            } else {
                None
            }),
    {
        match self.entries.get(&id) {
            Some(sent) => Some(*sent),
            None => None,
        }
    }

    /// The number of outstanding probes.
    pub fn len(&self) -> (n: usize)
        ensures
            n == self@.len(),
    {
        self.entries.len()
    }

    /// Whether no probe is outstanding.
    pub fn is_empty(&self) -> (empty: bool)
        ensures
            empty == (self@ == Map::<u64, u64>::empty()),
    {
        let empty = self.entries.is_empty();
        proof {
            if empty {
                assert(self@ =~= Map::<u64, u64>::empty());
            }
        }
        empty
    }
}

} // verus!
