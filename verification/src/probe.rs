//! A stat whose only observable state is how many times it was aggregated.
//! It carries no metric value; test streams use it to count the aggregation
//! passes a tick source has driven.

use vstd::prelude::*;
use crate::aggregatable::Aggregatable;
use crate::aggregatable::aggregated_times;
use crate::aggregator::lemma_passes_reach_every_instance;
use crate::aggregator::registry_aggregated_times;
use crate::container::ThreadLocalContainer;

verus! {

/// Counts invocations of its own `aggregate`. The count sticks at the top
/// of the machine word instead of wrapping.
#[derive(Clone, Copy, Debug, PartialEq, Eq, Structural)]
pub struct CallCounter {
    pub calls: u64,
}

impl Aggregatable for CallCounter {
    open spec fn wf(&self) -> bool {
        true
    }

    open spec fn canonical(&self) -> int {
        0
    }

    open spec fn pending(&self) -> int {
        0
    }

    open spec fn aggregate_rel(pre: CallCounter, post: CallCounter) -> bool {
        if pre.calls == u64::MAX {
            post.calls == u64::MAX
        } else {
            post.calls == pre.calls + 1
        }
    }

    proof fn lemma_aggregate_merges(pre: CallCounter, post: CallCounter) {
    }

    fn fresh() -> (stat: CallCounter) {
        CallCounter { calls: 0 }
    }

    fn aggregate(&mut self) {
        if self.calls < u64::MAX {
            self.calls = self.calls + 1;
        }
    }
}

/// A probe that started with headroom for `n` aggregation steps has, after
/// exactly `n` of them, counted exactly `n` more invocations.
pub proof fn lemma_probe_counts_steps(p0: CallCounter, p1: CallCounter, n: nat)
    requires
        aggregated_times(p0, p1, n),
        p0.calls + n <= u64::MAX,
    ensures
        p1.calls == p0.calls + n,
    decreases n,
{
    if n > 0 {
        let mid = choose|mid: CallCounter|
            aggregated_times(p0, mid, (n - 1) as nat) && CallCounter::aggregate_rel(mid, p1);
        lemma_probe_counts_steps(p0, mid, (n - 1) as nat);
    }
}

/// Feeding an `n`-element tick stream through the aggregation driver
/// invokes each registered probe's `aggregate` exactly `n` times.
pub proof fn lemma_stream_counts_ticks(
    pre: Seq<ThreadLocalContainer<CallCounter>>,
    post: Seq<ThreadLocalContainer<CallCounter>>,
    n: nat,
    i: int,
    k: int,
)
    requires
        registry_aggregated_times(pre, post, n),
        0 <= i < pre.len(),
        0 <= k < pre[i].slots@.len(),
        pre[i].slots@[k].stat.calls + n <= u64::MAX,
    ensures
        post[i].slots@[k].stat.calls == pre[i].slots@[k].stat.calls + n,
{
    lemma_passes_reach_every_instance(pre, post, n);
    lemma_probe_counts_steps(pre[i].slots@[k].stat, post[i].slots@[k].stat, n);
}

} // verus!
