//! Progress tracking for one gathering run.

use vstd::prelude::*;

verus! {

/// Counts the successful copies of one run.
///
/// One instance belongs to one run and is read for reporting only. A caller
/// that shares it across workers must serialize access (for example behind a
/// mutex) so that each successful copy performs exactly one `increment`;
/// under that discipline `increment_many` shows that no update is lost.
pub struct ProgressCounter {
    count: usize,
}

impl ProgressCounter {
    /// The current count, as contracts see it.
    pub closed spec fn spec_value(self) -> usize {
        self.count
    }

    /// A fresh counter starts at zero.
    pub fn new() -> (c: Self)
        ensures
            c.spec_value() == 0,
    {
        ProgressCounter { count: 0 }
    }

    /// Adds one to the count.
    pub fn increment(&mut self)
        requires
            old(self).spec_value() < usize::MAX,
        ensures
            final(self).spec_value() == old(self).spec_value() + 1,
    {
        self.count = self.count + 1;
    }

    /// Reads the current count.
    pub fn current_value(&self) -> (n: usize)
        ensures
            n == self.spec_value(),
    {
        self.count
    }

    /// Recording `k` successes moves the counter by exactly `k`: serialized
    /// increments lose no update, however many workers produced them.
    pub fn increment_many(&mut self, k: usize)
        requires
            old(self).spec_value() + k <= usize::MAX,
        ensures
            final(self).spec_value() == old(self).spec_value() + k,
    {
        let mut i: usize = 0;
        while i < k
            invariant
                i <= k,
                old(self).spec_value() + k <= usize::MAX,
                self.spec_value() == old(self).spec_value() + i,
            decreases k - i,
        {
            self.increment();
            i = i + 1;
        }
    }
}

} // verus!
