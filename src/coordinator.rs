//! Stop decisions of a search run. Two independent observers apply the same policy: a
//! monitor that samples the shared match counter, and the single consumer that counts
//! the keys it has processed. Either one reaching the target is enough to set the stop
//! flag, which only ever goes from clear to set.
use vstd::prelude::*;
use crate::types::SearchBehavior;

verus! {

/// The policy is satisfied once `found` keys are in hand.
pub open spec fn target_met(behavior: SearchBehavior, found: int) -> bool {
    match behavior {
        SearchBehavior::FindN(n) => found >= n,
        SearchBehavior::Continuous => false,
    }
}

/// Whether a search under `behavior` should stop once `found` keys are in hand.
pub fn target_reached(behavior: SearchBehavior, found: usize) -> (r: bool)
    ensures
        r == target_met(behavior, found as int),
{
    match behavior {
        SearchBehavior::FindN(n) => found >= n,
        SearchBehavior::Continuous => false,
    }
}

/// The consumer's side of the stop decision: how many found keys it has processed.
pub struct KeyConsumer {
    behavior: SearchBehavior,
    processed: usize,
}

impl KeyConsumer {
    pub closed spec fn spec_behavior(&self) -> SearchBehavior {
        self.behavior
    }

    pub closed spec fn spec_processed(&self) -> nat {
        self.processed as nat
    }

    /// A consumer that has processed nothing yet.
    pub fn new(behavior: SearchBehavior) -> (r: Self)
        ensures
            r.spec_behavior() == behavior,
            r.spec_processed() == 0,
    {
        KeyConsumer { behavior, processed: 0 }
    }

    /// Keys processed so far.
    pub fn processed(&self) -> (r: usize)
        ensures
            r == self.spec_processed(),
    {
        self.processed
    }

    /// Counts one more processed key (the count stops at `usize::MAX`) and tells
    /// whether the search should now stop.
    pub fn record_processed(&mut self) -> (stop: bool)
        ensures
            final(self).spec_behavior() == old(self).spec_behavior(),
            final(self).spec_processed() == if old(self).spec_processed() < usize::MAX {
                old(self).spec_processed() + 1
            } else {
                old(self).spec_processed()
            },
            stop == target_met(old(self).spec_behavior(), final(self).spec_processed() as int),
    {
        self.processed = self.processed.saturating_add(1);
        target_reached(self.behavior, self.processed)
    }
}

/// Under the continuous policy no count of keys, whether matches seen by the monitor or
/// keys processed by the consumer, ever asks for a stop.
pub proof fn lemma_continuous_never_stops(found: int)
    ensures
        !target_met(SearchBehavior::Continuous, found),
{
}

/// Under "stop after n", a consumer that starts from nothing asks for a stop at the
/// n-th processed key and at no earlier one.
pub proof fn lemma_find_n_stops_at_nth_key(n: usize, processed: nat)
    requires
        n >= 1,
        processed <= n,
    ensures
        target_met(SearchBehavior::FindN(n), processed as int) <==> processed == n,
{
}

} // verus!
