//! One-time claims on resources of which only one handle may exist.

use vstd::prelude::*;

verus! {

/// What a claim on a resource whose claimed state is `acquired` returns, and
/// the state after it: the claim wins only on a free resource, and the
/// resource is claimed afterwards either way.
pub open spec fn claim_outcome(acquired: bool) -> (bool, bool) {
    (!acquired, true)
}

/// The record of whether a singleton resource has been claimed.
///
/// Whoever owns the record hands out the resource: a claim on a free record
/// wins and marks it, every later claim fails until the record is released.
#[derive(Debug)]
pub struct AcquireOnce {
    acquired: bool,
}

impl AcquireOnce {
    /// Whether the resource is claimed.
    pub closed spec fn is_acquired(&self) -> bool {
        self.acquired
    }

    /// The record of a free resource.
    pub fn new() -> (record: Self)
        ensures
            !record.is_acquired(),
    {
        AcquireOnce { acquired: false }
    }

    /// Claims the resource. Returns whether this call won it.
    pub fn try_acquire(&mut self) -> (won: bool)
        ensures
            (won, final(self).is_acquired()) == claim_outcome(old(self).is_acquired()),
    {
        let won = !self.acquired;
        self.acquired = true;
        won
    }

    /// Gives the resource back, so that it can be claimed again.
    pub fn release(&mut self)
        ensures
            !final(self).is_acquired(),
    {
        self.acquired = false;
    }

    /// Whether the resource is claimed.
    pub fn acquired(&self) -> (held: bool)
        ensures
            held == self.is_acquired(),
    {
        self.acquired
    }
}

/// A claim that follows another claim, with no release in between, fails,
/// whatever the state before the first.
pub proof fn lemma_second_claim_fails(acquired: bool)
    ensures
        !claim_outcome(claim_outcome(acquired).1).0,
        claim_outcome(claim_outcome(acquired).1).1,
{
}

} // verus!
