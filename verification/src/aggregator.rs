//! The process-wide registry of thread-local stat containers and the
//! aggregation pass over it. The registry only ever grows: containers are
//! registered once per metric site and never removed.

use vstd::prelude::*;
use crate::aggregatable::Aggregatable;
use crate::aggregatable::aggregated_times;
use crate::container::ThreadLocalContainer;
use crate::container::container_aggregated;

verus! {

/// The registry of every container registered in this process, together
/// with the aggregation pass. The surrounding runtime keeps one of these
/// per process, behind its lock; registration and the aggregation pass are
/// the only operations that touch it.
pub struct StatsAggregator<T> {
    pub registry: Vec<ThreadLocalContainer<T>>,
}

/// Every registered container is well formed.
pub open spec fn registry_wf<T: Aggregatable>(registry: Seq<ThreadLocalContainer<T>>) -> bool {
    forall|i: int| 0 <= i < registry.len() ==> (#[trigger] registry[i]).wf()
}

/// One registration: the registry grew by exactly one empty container and
/// every earlier entry is untouched.
pub open spec fn registered_once<T: Aggregatable>(
    pre: Seq<ThreadLocalContainer<T>>,
    post: Seq<ThreadLocalContainer<T>>,
) -> bool {
    &&& post.len() == pre.len() + 1
    &&& forall|i: int| 0 <= i < pre.len() ==> post[i] == pre[i]
    &&& post.last().slots@.len() == 0
}

/// `n` registrations in sequence took the registry from `pre` to `post`.
pub open spec fn registered_times<T: Aggregatable>(
    pre: Seq<ThreadLocalContainer<T>>,
    post: Seq<ThreadLocalContainer<T>>,
    n: nat,
) -> bool
    decreases n,
{
    if n == 0 {
        post == pre
    } else {
        exists|mid: Seq<ThreadLocalContainer<T>>|
            registered_times(pre, mid, (n - 1) as nat) && registered_once(mid, post)
    }
}

/// One aggregation pass over the registry: every container keeps its place
/// and every one of its instances took exactly one aggregation step.
pub open spec fn registry_aggregated<T: Aggregatable>(
    pre: Seq<ThreadLocalContainer<T>>,
    post: Seq<ThreadLocalContainer<T>>,
) -> bool {
    &&& post.len() == pre.len()
    &&& forall|i: int| 0 <= i < pre.len() ==> container_aggregated(pre[i], #[trigger] post[i])
}

/// `n` aggregation passes in sequence took the registry from `pre` to
/// `post`.
pub open spec fn registry_aggregated_times<T: Aggregatable>(
    pre: Seq<ThreadLocalContainer<T>>,
    post: Seq<ThreadLocalContainer<T>>,
    n: nat,
) -> bool
    decreases n,
{
    if n == 0 {
        post == pre
    } else {
        exists|mid: Seq<ThreadLocalContainer<T>>|
            registry_aggregated_times(pre, mid, (n - 1) as nat) && registry_aggregated(mid, post)
    }
}

impl<T: Aggregatable> StatsAggregator<T> {
    /// Every registered container is well formed.
    pub open spec fn wf(&self) -> bool {
        registry_wf(self.registry@)
    }

    /// A process starts with no registered container.
    pub fn new() -> (agg: StatsAggregator<T>)
        ensures
            agg.wf(),
            agg.registry@.len() == 0,
    {
        StatsAggregator { registry: Vec::new() }
    }

    /// How many containers have been registered.
    pub fn container_count(&self) -> (n: usize)
        ensures
            n == self.registry@.len(),
    {
        self.registry.len()
    }

    /// This thread's instance in the container behind handle `h`, if the
    /// thread has touched that container.
    pub fn read_stat(&self, h: usize, tid: u64) -> (r: Option<&T>)
        requires
            self.wf(),
            h < self.registry@.len(),
        ensures
            (match r {
                Some(stat) => crate::container::stat_of(self.registry@[h as int].slots@, tid)
                    == Some(*stat),
                None => crate::container::stat_of(self.registry@[h as int].slots@, tid) is None,
            }),
    {
        self.registry[h].read_stat(tid)
    }

    /// Store the calling thread's instance in the container behind handle
    /// `h`, creating its slot on the thread's first touch. No other
    /// container and no other thread's slot changes.
    pub fn set_stat(&mut self, h: usize, tid: u64, stat: T)
        requires
            old(self).wf(),
            h < old(self).registry@.len(),
            stat.wf(),
        ensures
            final(self).wf(),
            final(self).registry@.len() == old(self).registry@.len(),
            forall|i: int|
                0 <= i < old(self).registry@.len() && i != h ==> final(self).registry@[i] == old(
                    self,
                ).registry@[i],
            crate::container::stat_of(final(self).registry@[h as int].slots@, tid) == Some(stat),
            final(self).registry@[h as int].slots@.len() == if crate::container::has_tid(
                old(self).registry@[h as int].slots@,
                tid,
            ) {
                old(self).registry@[h as int].slots@.len()
            } else {
                old(self).registry@[h as int].slots@.len() + 1
            },
            forall|t2: u64|
                t2 != tid ==> crate::container::stat_of(
                    final(self).registry@[h as int].slots@,
                    t2,
                ) == crate::container::stat_of(old(self).registry@[h as int].slots@, t2),
    {
        let ghost prev = self.registry@;
        let mut c = self.registry.remove(h);
        c.set_stat(tid, stat);
        self.registry.insert(h, c);
        proof {
            assert(self.registry@ =~= prev.update(h as int, self.registry@[h as int]));
        }
    }

    /// The aggregation pass: visit every registered container and
    /// aggregate every live per-thread instance in it. The registry is
    /// held for the whole pass; registration is the only other operation
    /// that contends for it.
    pub fn aggregate(&mut self)
        requires
            old(self).wf(),
        ensures
            final(self).wf(),
            registry_aggregated(old(self).registry@, final(self).registry@),
    {
        let n = self.registry.len();
        let mut i: usize = 0;
        while i < n
            invariant
                i <= n,
                n == self.registry@.len(),
                n == old(self).registry@.len(),
                forall|j: int| 0 <= j < n ==> (#[trigger] self.registry@[j]).wf(),
                forall|j: int|
                    0 <= j < i ==> container_aggregated(
                        old(self).registry@[j],
                        #[trigger] self.registry@[j],
                    ),
                forall|j: int| i <= j < n ==> self.registry@[j] == old(self).registry@[j],
            decreases n - i,
        {
            let ghost prev = self.registry@;
            let mut c = self.registry.remove(i);
            c.aggregate_slots();
            self.registry.insert(i, c);
            proof {
                assert(self.registry@ =~= prev.update(i as int, self.registry@[i as int]));
            }
            i = i + 1;
        }
    }
}

/// Creates a thread-local stat container and registers it for the periodic
/// aggregation pass; the returned handle addresses the container from then
/// on. Registration never fails and never removes an entry.
pub fn create_map<T: Aggregatable>(agg: &mut StatsAggregator<T>) -> (h: usize)
    requires
        old(agg).wf(),
    ensures
        final(agg).wf(),
        h == old(agg).registry@.len(),
        registered_once(old(agg).registry@, final(agg).registry@),
{
    let h = agg.registry.len();
    let c = ThreadLocalContainer::new();
    agg.registry.push(c);
    h
}

/// Drives one aggregation pass per element of a tick stream that has
/// already been collapsed to its length. This is the seam that lets a test
/// feed an arbitrary tick source; the production task obtained from the
/// scheduling gate drives the same pass from a timer.
pub fn schedule_stats_on_stream_preview<T: Aggregatable>(agg: &mut StatsAggregator<T>, ticks: usize)
    requires
        old(agg).wf(),
    ensures
        final(agg).wf(),
        registry_aggregated_times(old(agg).registry@, final(agg).registry@, ticks as nat),
{
    let mut k: usize = 0;
    while k < ticks
        invariant
            k <= ticks,
            agg.wf(),
            registry_aggregated_times(old(agg).registry@, agg.registry@, k as nat),
        decreases ticks - k,
    {
        let ghost prev = agg.registry@;
        agg.aggregate();
        proof {
            assert(registry_aggregated_times(old(agg).registry@, prev, k as nat));
            assert(registry_aggregated_times(old(agg).registry@, agg.registry@, (k + 1) as nat));
        }
        k = k + 1;
    }
}

/// No registration is lost: `n` registrations grow the registry by exactly
/// `n`, and every entry present beforehand is still there, unchanged.
pub proof fn lemma_registrations_all_kept<T: Aggregatable>(
    pre: Seq<ThreadLocalContainer<T>>,
    post: Seq<ThreadLocalContainer<T>>,
    n: nat,
)
    requires
        registered_times(pre, post, n),
    ensures
        post.len() == pre.len() + n,
        forall|i: int| 0 <= i < pre.len() ==> post[i] == pre[i],
    decreases n,
{
    if n > 0 {
        let mid = choose|mid: Seq<ThreadLocalContainer<T>>|
            registered_times(pre, mid, (n - 1) as nat) && registered_once(mid, post);
        lemma_registrations_all_kept(pre, mid, (n - 1) as nat);
    }
}

/// `n` aggregation passes over the registry drive every single instance
/// through exactly `n` aggregation steps, and no slot moves or disappears.
pub proof fn lemma_passes_reach_every_instance<T: Aggregatable>(
    pre: Seq<ThreadLocalContainer<T>>,
    post: Seq<ThreadLocalContainer<T>>,
    n: nat,
)
    requires
        registry_aggregated_times(pre, post, n),
    ensures
        post.len() == pre.len(),
        forall|i: int|
            0 <= i < pre.len() ==> (#[trigger] post[i]).slots@.len() == pre[i].slots@.len(),
        forall|i: int, k: int|
            0 <= i < pre.len() && 0 <= k < pre[i].slots@.len() ==> (#[trigger] post[i].slots@[k]).thread_id
                == pre[i].slots@[k].thread_id,
        forall|i: int, k: int|
            0 <= i < pre.len() && 0 <= k < pre[i].slots@.len() ==> aggregated_times(
                pre[i].slots@[k].stat,
                (#[trigger] post[i].slots@[k]).stat,
                n,
            ),
    decreases n,
{
    if n > 0 {
        let mid = choose|mid: Seq<ThreadLocalContainer<T>>|
            registry_aggregated_times(pre, mid, (n - 1) as nat) && registry_aggregated(mid, post);
        lemma_passes_reach_every_instance(pre, mid, (n - 1) as nat);
        assert forall|i: int, k: int|
            0 <= i < pre.len() && 0 <= k < pre[i].slots@.len() implies aggregated_times(
            pre[i].slots@[k].stat,
            (#[trigger] post[i].slots@[k]).stat,
            n,
        ) by {
            assert(container_aggregated(mid[i], post[i]));
            assert(aggregated_times(pre[i].slots@[k].stat, mid[i].slots@[k].stat, (n - 1) as nat));
            assert(T::aggregate_rel(mid[i].slots@[k].stat, post[i].slots@[k].stat));
        }
    }
}

/// Idempotence over the whole registry: of two aggregation passes with no
/// writes in between, the second changes no canonical value and leaves
/// nothing pending anywhere.
pub proof fn lemma_aggregate_idempotent_registry<T: Aggregatable>(
    r0: Seq<ThreadLocalContainer<T>>,
    r1: Seq<ThreadLocalContainer<T>>,
    r2: Seq<ThreadLocalContainer<T>>,
)
    requires
        registry_wf(r0),
        registry_aggregated(r0, r1),
        registry_aggregated(r1, r2),
    ensures
        forall|i: int, k: int|
            0 <= i < r0.len() && 0 <= k < r0[i].slots@.len() ==> (#[trigger] r2[i].slots@[k]).stat.canonical()
                == r1[i].slots@[k].stat.canonical(),
        forall|i: int, k: int|
            0 <= i < r0.len() && 0 <= k < r0[i].slots@.len() ==> (#[trigger] r2[i].slots@[k]).stat.pending()
                == 0,
{
    assert forall|i: int, k: int|
        0 <= i < r0.len() && 0 <= k < r0[i].slots@.len() implies (#[trigger] r2[i].slots@[k]).stat.canonical()
        == r1[i].slots@[k].stat.canonical() && r2[i].slots@[k].stat.pending() == 0 by {
        assert(container_aggregated(r0[i], r1[i]));
        assert(container_aggregated(r1[i], r2[i]));
        assert(r0[i].wf());
        assert(r0[i].slots@[k].stat.wf());
        crate::aggregatable::lemma_aggregate_idempotent(
            r0[i].slots@[k].stat,
            r1[i].slots@[k].stat,
            r2[i].slots@[k].stat,
        );
    }
}

} // verus!
