//! The per-registration-site container: one lazily created instance of the
//! stat per thread that has touched it. Instances are keyed by thread
//! identity and are never removed for the life of the process.

use vstd::prelude::*;
use crate::aggregatable::Aggregatable;

verus! {

/// One thread's instance of the stat, keyed by that thread's identity.
pub struct ThreadSlot<T> {
    pub thread_id: u64,
    pub stat: T,
}

/// Holds every thread's instance of one stat. Writes touch only the
/// calling thread's slot; the aggregation pass visits all of them.
pub struct ThreadLocalContainer<T> {
    pub slots: Vec<ThreadSlot<T>>,
}

/// Some slot carries this thread's instance.
pub open spec fn has_tid<T>(slots: Seq<ThreadSlot<T>>, tid: u64) -> bool {
    exists|i: int| 0 <= i < slots.len() && slots[i].thread_id == tid
}

/// The index of this thread's slot (meaningful only when `has_tid` holds;
/// well-formed containers hold at most one slot per thread).
pub open spec fn tid_index<T>(slots: Seq<ThreadSlot<T>>, tid: u64) -> int {
    choose|i: int| 0 <= i < slots.len() && slots[i].thread_id == tid
}

/// The instance this thread sees in the container, if it has one.
pub open spec fn stat_of<T>(slots: Seq<ThreadSlot<T>>, tid: u64) -> Option<T> {
    if has_tid(slots, tid) {
        Some(slots[tid_index(slots, tid)].stat)
    } else {
        None
    }
}

/// Every slot belongs to a distinct thread.
pub open spec fn tids_unique<T>(slots: Seq<ThreadSlot<T>>) -> bool {
    forall|i: int, j: int|
        0 <= i < j < slots.len() ==> slots[i].thread_id != slots[j].thread_id
}

/// One aggregation pass over a container: every thread keeps its slot, in
/// order, and every instance took exactly one aggregation step.
pub open spec fn container_aggregated<T: Aggregatable>(
    pre: ThreadLocalContainer<T>,
    post: ThreadLocalContainer<T>,
) -> bool {
    &&& post.slots@.len() == pre.slots@.len()
    &&& forall|i: int|
        0 <= i < pre.slots@.len() ==> (#[trigger] post.slots@[i]).thread_id
            == pre.slots@[i].thread_id
    &&& forall|i: int|
        0 <= i < pre.slots@.len() ==> T::aggregate_rel(
            pre.slots@[i].stat,
            (#[trigger] post.slots@[i]).stat,
        )
}

impl<T: Aggregatable> ThreadLocalContainer<T> {
    /// Thread ids are distinct and every instance is well formed.
    pub open spec fn wf(&self) -> bool {
        &&& tids_unique(self.slots@)
        &&& forall|i: int| 0 <= i < self.slots@.len() ==> (#[trigger] self.slots@[i]).stat.wf()
    }

    /// A container starts empty; each thread's instance appears on that
    /// thread's first write.
    pub fn new() -> (c: ThreadLocalContainer<T>)
        ensures
            c.wf(),
            c.slots@.len() == 0,
    {
        ThreadLocalContainer { slots: Vec::new() }
    }

    /// How many threads have an instance here.
    pub fn slot_count(&self) -> (n: usize)
        ensures
            n == self.slots@.len(),
    {
        self.slots.len()
    }

    /// The slot of the given thread, if that thread has touched this
    /// container.
    fn find(&self, tid: u64) -> (r: Option<usize>)
        ensures
            (match r {
                Some(i) => i < self.slots@.len() && self.slots@[i as int].thread_id == tid,
                None => !has_tid(self.slots@, tid),
            }),
    {
        let n = self.slots.len();
        let mut i: usize = 0;
        while i < n
            invariant
                i <= n,
                n == self.slots@.len(),
                forall|j: int| 0 <= j < i ==> self.slots@[j].thread_id != tid,
            decreases n - i,
        {
            if self.slots[i].thread_id == tid {
                return Some(i);
            }
            i = i + 1;
        }
        None
    }

    /// This thread's instance, if it has one.
    pub fn read_stat(&self, tid: u64) -> (r: Option<&T>)
        requires
            self.wf(),
        ensures
            (match r {
                Some(stat) => stat_of(self.slots@, tid) == Some(*stat),
                None => stat_of(self.slots@, tid) is None,
            }),
    {
        match self.find(tid) {
            Some(i) => {
                proof {
                    let w = tid_index(self.slots@, tid);
                    assert(0 <= w < self.slots@.len() && self.slots@[w].thread_id == tid);
                    assert(w == i);
                }
                Some(&self.slots[i].stat)
            },
            None => None,
        }
    }

    /// Store this thread's instance, creating its slot on the thread's
    /// first touch. Only the calling thread's slot changes.
    pub fn set_stat(&mut self, tid: u64, stat: T)
        requires
            old(self).wf(),
            stat.wf(),
        ensures
            final(self).wf(),
            stat_of(final(self).slots@, tid) == Some(stat),
            forall|t2: u64|
                t2 != tid ==> stat_of(final(self).slots@, t2) == stat_of(old(self).slots@, t2),
            final(self).slots@.len() == if has_tid(old(self).slots@, tid) {
                old(self).slots@.len()
            } else {
                old(self).slots@.len() + 1
            },
    {
        let ghost prev = self.slots@;
        match self.find(tid) {
            Some(i) => {
                let mut slot = self.slots.remove(i);
                slot.stat = stat;
                self.slots.insert(i, slot);
                proof {
                    assert(self.slots@ =~= prev.update(i as int, self.slots@[i as int]));
                    lemma_stat_of_update(prev, i as int, self.slots@[i as int], tid);
                }
            },
            None => {
                self.slots.push(ThreadSlot { thread_id: tid, stat });
                proof {
                    lemma_stat_of_push(prev, self.slots@[prev.len() as int], tid);
                }
            },
        }
    }

    /// The cross-thread visitation: aggregate every live per-thread
    /// instance of this container.
    pub fn aggregate_slots(&mut self)
        requires
            old(self).wf(),
        ensures
            final(self).wf(),
            container_aggregated(*old(self), *final(self)),
    {
        let n = self.slots.len();
        let mut i: usize = 0;
        while i < n
            invariant
                i <= n,
                n == self.slots@.len(),
                n == old(self).slots@.len(),
                forall|j: int|
                    0 <= j < n ==> (#[trigger] self.slots@[j]).thread_id
                        == old(self).slots@[j].thread_id,
                forall|j: int| 0 <= j < n ==> (#[trigger] self.slots@[j]).stat.wf(),
                forall|j: int|
                    0 <= j < i ==> T::aggregate_rel(
                        old(self).slots@[j].stat,
                        (#[trigger] self.slots@[j]).stat,
                    ),
                forall|j: int| i <= j < n ==> self.slots@[j] == old(self).slots@[j],
                tids_unique(self.slots@),
            decreases n - i,
        {
            let ghost prev = self.slots@;
            let mut slot = self.slots.remove(i);
            slot.stat.aggregate();
            proof {
                T::lemma_aggregate_merges(prev[i as int].stat, slot.stat);
            }
            self.slots.insert(i, slot);
            proof {
                assert(self.slots@ =~= prev.update(i as int, self.slots@[i as int]));
            }
            i = i + 1;
        }
    }
}

/// Updating one slot in place changes what its thread sees and nothing
/// else; with distinct thread ids the lookup functions follow suit.
proof fn lemma_stat_of_update<T>(slots: Seq<ThreadSlot<T>>, i: int, slot: ThreadSlot<T>, tid: u64)
    requires
        tids_unique(slots),
        0 <= i < slots.len(),
        slots[i].thread_id == tid,
        slot.thread_id == tid,
    ensures
        tids_unique(slots.update(i, slot)),
        stat_of(slots.update(i, slot), tid) == Some(slot.stat),
        forall|t2: u64| t2 != tid ==> stat_of(slots.update(i, slot), t2) == stat_of(slots, t2),
{
    let post = slots.update(i, slot);
    assert(tids_unique(post));
    assert(post[i].thread_id == tid);
    assert(has_tid(post, tid));
    assert(tid_index(post, tid) == i);
    assert forall|t2: u64| t2 != tid implies stat_of(post, t2) == stat_of(slots, t2) by {
        if has_tid(slots, t2) {
            let w = tid_index(slots, t2);
            assert(0 <= w < slots.len() && slots[w].thread_id == t2);
            assert(post[w].thread_id == t2);
            assert(has_tid(post, t2));
            assert(tid_index(post, t2) == w);
        } else {
            assert(!has_tid(post, t2));
        }
    }
}

/// Appending a new thread's slot changes what that thread sees and nothing
/// else.
proof fn lemma_stat_of_push<T>(slots: Seq<ThreadSlot<T>>, slot: ThreadSlot<T>, tid: u64)
    requires
        tids_unique(slots),
        !has_tid(slots, tid),
        slot.thread_id == tid,
    ensures
        tids_unique(slots.push(slot)),
        stat_of(slots.push(slot), tid) == Some(slot.stat),
        forall|t2: u64| t2 != tid ==> stat_of(slots.push(slot), t2) == stat_of(slots, t2),
{
    let post = slots.push(slot);
    assert(forall|j: int| 0 <= j < slots.len() ==> post[j] == slots[j]);
    assert(post[slots.len() as int] == slot);
    assert(tids_unique(post));
    assert(post[slots.len() as int].thread_id == tid);
    assert(has_tid(post, tid));
    assert(tid_index(post, tid) == slots.len());
    assert forall|t2: u64| t2 != tid implies stat_of(post, t2) == stat_of(slots, t2) by {
        if has_tid(slots, t2) {
            let w = tid_index(slots, t2);
            assert(0 <= w < slots.len() && slots[w].thread_id == t2);
            assert(post[w].thread_id == t2);
            assert(has_tid(post, t2));
            assert(tid_index(post, t2) == w);
        } else {
            assert(!has_tid(post, t2));
        }
    }
}

} // verus!
