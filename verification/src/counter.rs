//! The count of processed requests.

use vstd::prelude::*;

verus! {

/// How many processing requests have been counted since the service started.
///
/// The counter is a plain owned value: every update goes through `&mut`, so
/// two updates can never overlap and none can be lost. Callers that share a
/// counter between tasks keep it behind a lock and hold the lock for the
/// length of one `increment` or `read`.
#[derive(Debug)]
pub struct RequestCounter {
    count: u64,
}

impl View for RequestCounter {
    type V = nat;

    closed spec fn view(&self) -> nat {
        self.count as nat
    }
}

impl RequestCounter {
    /// A counter that has seen no request.
    pub fn new() -> (counter: Self)
        ensures
            counter@ == 0,
    {
        RequestCounter { count: 0 }
    }

    /// Counts one more request.
    pub fn increment(&mut self)
        requires
            old(self)@ < u64::MAX,
        ensures
            final(self)@ == old(self)@ + 1,
    {
        self.count = self.count + 1;
    }

    /// The number of requests counted so far.
    pub fn read(&self) -> (n: u64)
        ensures
            n == self@,
    {
        self.count
    }
}

/// No increment is lost: a counter that starts at zero and goes through any
/// number of increments, one at a time and in whatever order their callers
/// got their turn, ends at exactly that number.
///
/// `states` is the counter before the first increment and after each one.
pub proof fn lemma_every_increment_counts(states: Seq<RequestCounter>)
    requires
        states.len() > 0,
        states[0]@ == 0,
        forall|k: int|
            0 <= k < states.len() - 1 ==> states[k + 1]@ == (#[trigger] states[k])@ + 1,
    ensures
        states.last()@ == states.len() - 1,
    decreases states.len(),
{
    if states.len() > 1 {
        let earlier = states.drop_last();
        assert forall|k: int| 0 <= k < earlier.len() - 1 implies earlier[k + 1]@ == (
        #[trigger] earlier[k])@ + 1 by {
            assert(earlier[k] == states[k]);
            assert(earlier[k + 1] == states[k + 1]);
        }
        lemma_every_increment_counts(earlier);
        let k = states.len() - 2;
        assert(states[k + 1]@ == states[k]@ + 1);
        assert(earlier.last() == states[k]);
    }
}

} // verus!
