//! A counting stat: writes accumulate thread-confined in `pending`, and an
//! aggregation pass folds them into the readable `value`.

use vstd::prelude::*;
use crate::aggregatable::Aggregatable;

verus! {

/// A counting stat. `value` is the canonical, aggregated count that readers
/// see; `pending` holds the deltas recorded since the last aggregation.
#[derive(Clone, Copy, Debug, PartialEq, Eq, Structural)]
pub struct Counter {
    pub value: i64,
    pub pending: i64,
}

impl Counter {
    /// Record a delta on the calling thread's instance. The write stays
    /// invisible to readers until the next aggregation pass. The bounds
    /// only keep the running totals within the machine word.
    pub fn record(&mut self, delta: i64)
        requires
            i64::MIN <= old(self).pending + delta <= i64::MAX,
            i64::MIN <= old(self).value + old(self).pending + delta <= i64::MAX,
        ensures
            final(self).value == old(self).value,
            final(self).pending == old(self).pending + delta,
    {
        self.pending = self.pending + delta;
    }

    /// The aggregated count. Writes recorded after the last aggregation
    /// pass are not included: reads are allowed to lag one pass behind.
    pub fn read(&self) -> (v: i64)
        ensures
            v == self.value,
    {
        self.value
    }
}

impl Aggregatable for Counter {
    /// Merging must not overflow the machine word.
    open spec fn wf(&self) -> bool {
        i64::MIN <= self.value + self.pending <= i64::MAX
    }

    open spec fn canonical(&self) -> int {
        self.value as int
    }

    open spec fn pending(&self) -> int {
        self.pending as int
    }

    open spec fn aggregate_rel(pre: Counter, post: Counter) -> bool {
        &&& post.value == pre.value + pre.pending
        &&& post.pending == 0
    }

    proof fn lemma_aggregate_merges(pre: Counter, post: Counter) {
    }

    fn fresh() -> (stat: Counter) {
        Counter { value: 0, pending: 0 }
    }

    fn aggregate(&mut self) {
        self.value = self.value + self.pending;
        self.pending = 0;
    }
}

/// The effect on a counter of one thread-confined write of `delta`.
pub open spec fn wrote(pre: Counter, delta: int, post: Counter) -> bool {
    &&& post.value == pre.value
    &&& post.pending == pre.pending + delta
}

/// The counter went from `pre` to `post` through exactly the writes in
/// `deltas`, in order.
pub open spec fn wrote_all(pre: Counter, deltas: Seq<int>, post: Counter) -> bool
    decreases deltas.len(),
{
    if deltas.len() == 0 {
        post == pre
    } else {
        exists|mid: Counter|
            wrote_all(pre, deltas.drop_last(), mid) && wrote(mid, deltas.last(), post)
    }
}

/// The sum of a sequence of write deltas.
pub open spec fn sum(deltas: Seq<int>) -> int
    decreases deltas.len(),
{
    if deltas.len() == 0 {
        0
    } else {
        sum(deltas.drop_last()) + deltas.last()
    }
}

/// A sequence of writes leaves the canonical value alone and accumulates
/// exactly the sum of the deltas in `pending`.
pub proof fn lemma_wrote_all_sums(c0: Counter, deltas: Seq<int>, c1: Counter)
    requires
        wrote_all(c0, deltas, c1),
    ensures
        c1.value == c0.value,
        c1.pending == c0.pending + sum(deltas),
    decreases deltas.len(),
{
    if deltas.len() > 0 {
        let mid = choose|mid: Counter|
            wrote_all(c0, deltas.drop_last(), mid) && wrote(mid, deltas.last(), c1);
        lemma_wrote_all_sums(c0, deltas.drop_last(), mid);
    }
}

/// Every sequence of writes followed by one aggregation step yields, as the
/// aggregated value, what was merged or pending beforehand plus exactly the
/// sum of those writes; nothing stays pending.
pub proof fn lemma_aggregate_sums_writes(c0: Counter, deltas: Seq<int>, c1: Counter, c2: Counter)
    requires
        wrote_all(c0, deltas, c1),
        Counter::aggregate_rel(c1, c2),
    ensures
        c2.value == c0.value + c0.pending + sum(deltas),
        c2.pending == 0,
{
    lemma_wrote_all_sums(c0, deltas, c1);
}

} // verus!
