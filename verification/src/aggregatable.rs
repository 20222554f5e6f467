//! The capability every stat container must offer: a no-argument,
//! infallible merge of its thread-local deltas into its canonical state.

use vstd::prelude::*;

verus! {

/// A metric instance whose thread-local deltas can be merged into its own
/// canonical state by a no-argument, infallible `aggregate` operation.
pub trait Aggregatable: Sized {
    /// The well-formed states; `aggregate` is total on them.
    spec fn wf(&self) -> bool;

    /// The canonical, already merged value: what a reader sees.
    spec fn canonical(&self) -> int;

    /// The deltas written since the last merge, not yet visible to readers.
    spec fn pending(&self) -> int;

    /// How one `aggregate` call relates the state before to the state after.
    spec fn aggregate_rel(pre: Self, post: Self) -> bool;

    /// One aggregation step on a well-formed state merges exactly the
    /// pending deltas into the canonical value, leaves nothing pending,
    /// and preserves well-formedness.
    proof fn lemma_aggregate_merges(pre: Self, post: Self)
        requires
            pre.wf(),
            Self::aggregate_rel(pre, post),
        ensures
            post.canonical() == pre.canonical() + pre.pending(),
            post.pending() == 0,
            post.wf(),
    ;

    /// A freshly created instance: well formed, with no merged value and
    /// no pending deltas. Containers create one per thread, lazily.
    fn fresh() -> (stat: Self)
        ensures
            stat.wf(),
            stat.canonical() == 0,
            stat.pending() == 0,
    ;

    /// Merge this instance's thread-local deltas into its canonical state.
    fn aggregate(&mut self)
        requires
            old(self).wf(),
        ensures
            Self::aggregate_rel(*old(self), *final(self)),
    ;
}

/// `n` consecutive aggregation steps took an instance from `pre` to `post`.
pub open spec fn aggregated_times<T: Aggregatable>(pre: T, post: T, n: nat) -> bool
    decreases n,
{
    if n == 0 {
        post == pre
    } else {
        exists|mid: T|
            aggregated_times(pre, mid, (n - 1) as nat) && T::aggregate_rel(mid, post)
    }
}

/// Idempotence: with no writes in between, the second of two consecutive
/// aggregation steps leaves the canonical value unchanged.
pub proof fn lemma_aggregate_idempotent<T: Aggregatable>(s0: T, s1: T, s2: T)
    requires
        s0.wf(),
        T::aggregate_rel(s0, s1),
        T::aggregate_rel(s1, s2),
    ensures
        s2.canonical() == s1.canonical(),
        s2.pending() == 0,
{
    T::lemma_aggregate_merges(s0, s1);
    T::lemma_aggregate_merges(s1, s2);
}

} // verus!
