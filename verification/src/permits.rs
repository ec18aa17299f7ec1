//! The counting-permit pool: the accounting core of the semaphore primitive
//! that the shared/exclusive lock and the write multiplexer are built on.
//!
//! Acquisition here is immediate or refused; suspension, wake-up order and
//! fairness belong to the runtime that drives these components and retries a
//! refused acquisition.
use vstd::prelude::*;

verus! {

/// A bounded pool of permits. Grants take permits out; releases put exactly
/// the granted permits back.
pub struct PermitPool {
    /// The fixed number of permits the pool was created with.
    pub capacity: usize,
    /// The permits not currently held by any grant.
    pub available: usize,
}

impl PermitPool {
    /// The pool never holds more free permits than its capacity.
    pub open spec fn wf(&self) -> bool {
        self.available <= self.capacity
    }

    /// The permits currently held by outstanding grants.
    pub open spec fn outstanding(&self) -> int {
        self.capacity - self.available
    }

    pub fn new(capacity: usize) -> (p: PermitPool)
        ensures
            p.wf(),
            p.capacity == capacity,
            p.available == capacity,
    {
        PermitPool { capacity, available: capacity }
    }

    /// Take `n` permits at once, or none at all.
    pub fn try_acquire(&mut self, n: usize) -> (granted: bool)
        requires
            old(self).wf(),
        ensures
            final(self).wf(),
            final(self).capacity == old(self).capacity,
            granted <==> n <= old(self).available,
            granted ==> final(self).available == old(self).available - n,
            !granted ==> *final(self) == *old(self),
    {
        if n <= self.available {
            self.available = self.available - n;
            true
        } else {
            false
        }
    }

    /// Return `n` permits; never more than are outstanding.
    pub fn release(&mut self, n: usize)
        requires
            old(self).wf(),
            n <= old(self).outstanding(),
        ensures
            final(self).wf(),
            final(self).capacity == old(self).capacity,
            final(self).available == old(self).available + n,
    {
        self.available = self.available + n;
    }

    pub fn available_permits(&self) -> (n: usize)
        ensures
            n == self.available,
    {
        self.available
    }
}

} // verus!
