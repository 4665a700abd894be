use vstd::prelude::*;

verus! {

/// Default ceiling for the number of network fetches one inbound delivery may
/// trigger across its whole resolution call tree.
pub const DEFAULT_FETCH_LIMIT: u32 = 25;

/// A single mutable fetch counter shared across one top-level resolution call
/// tree. It is charged once per network fetch performed; once the counter
/// reaches the ceiling every further fetch is refused, which bounds the total
/// amplification an attacker-controlled reference graph can cause and also
/// serves as the termination measure of the recursive resolver.
pub struct ResolutionBudget {
    pub used: u32,
    pub ceiling: u32,
}

impl ResolutionBudget {
    /// The counter never runs past its ceiling.
    pub open spec fn wf(self) -> bool {
        self.used <= self.ceiling
    }

    /// Fetches that may still be performed.
    pub open spec fn remaining(self) -> int {
        self.ceiling - self.used
    }

    /// A fresh budget for one inbound delivery.
    pub fn new(ceiling: u32) -> (r: Self)
        ensures
            r.wf(),
            r.used == 0,
            r.ceiling == ceiling,
    {
        ResolutionBudget { used: 0, ceiling }
    }

    /// How many fetches have been charged so far.
    pub fn spent(&self) -> (r: u32)
        ensures
            r == self.used,
    {
        self.used
    }

    /// Check-then-charge for one fetch: refuses (and stays unchanged) when the
    /// counter is already at the ceiling, otherwise counts the fetch.
    pub fn try_charge(&mut self) -> (ok: bool)
        requires
            old(self).wf(),
        ensures
            final(self).wf(),
            final(self).ceiling == old(self).ceiling,
            ok == (old(self).used < old(self).ceiling),
            ok ==> final(self).used == old(self).used + 1,
            !ok ==> *final(self) == *old(self),
    {
        if self.used < self.ceiling {
            self.used = self.used + 1;
            true
        } else {
            false
        }
    }
}

} // verus!
