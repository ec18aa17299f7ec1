//! An asynchronous-style shared/exclusive lock over an owned value, built on
//! the counting-permit pool: any number of shared guards up to `MAX_READERS`,
//! or a single exclusive guard holding every permit.
//!
//! Acquisition is immediate or refused; the runtime that drives the lock
//! suspends and retries a refused acquisition. A guard is released by handing
//! it back to the lock, which restores exactly the permits the guard took.
//! A shared guard grants read access only; mutable access needs an exclusive
//! guard.
use crate::permits::PermitPool;
use vstd::prelude::*;

verus! {

/// The fixed maximum number of concurrently live shared guards; an exclusive
/// guard reserves this many permits at once.
pub const MAX_READERS: usize = 32;

/// A shared/exclusive lock owning one instance of the protected value.
pub struct SharedLock<T> {
    /// The permit pool coordinating access; capacity `MAX_READERS`.
    pub pool: PermitPool,
    /// The number of live shared guards.
    pub shared_out: usize,
    /// The number of live exclusive guards (0 or 1).
    pub excl_out: usize,
    /// The protected value.
    pub value: T,
}

/// A live grant of shared access; holds exactly one permit.
pub struct SharedLockSharedGuard {
    pub permits: usize,
}

/// A live grant of exclusive access; holds every permit in the pool.
pub struct SharedLockExclusiveGuard {
    pub permits: usize,
}

/// One acquire or release call on the lock, for stating laws about whole
/// call sequences.
pub enum LockOp {
    AcquireShared,
    AcquireExclusive,
    ReleaseShared,
    ReleaseExclusive,
}

/// Counts of live guards, `(shared, exclusive)`, of a lock state.
pub open spec fn lock_counts_wf(c: (nat, nat)) -> bool {
    &&& c.1 <= 1
    &&& c.1 == 1 ==> c.0 == 0
    &&& c.0 <= MAX_READERS
}

/// The permits left free by the live guards counted in `c`.
pub open spec fn lock_available(c: (nat, nat)) -> int {
    MAX_READERS - c.0 - MAX_READERS * c.1
}

/// How one call changes the guard counts. An acquire that the permit pool
/// cannot grant leaves the counts unchanged (the caller suspends); a release
/// with no matching guard is a no-op here, and the executable release
/// operations refuse it by precondition.
pub open spec fn lock_step(c: (nat, nat), op: LockOp) -> (nat, nat) {
    match op {
        LockOp::AcquireShared => if c.1 == 0 && c.0 < MAX_READERS {
            ((c.0 + 1) as nat, c.1)
        } else {
            c
        },
        LockOp::AcquireExclusive => if c.0 == 0 && c.1 == 0 {
            (c.0, 1nat)
        } else {
            c
        },
        LockOp::ReleaseShared => if c.0 > 0 {
            ((c.0 - 1) as nat, c.1)
        } else {
            c
        },
        LockOp::ReleaseExclusive => if c.1 > 0 {
            (c.0, (c.1 - 1) as nat)
        } else {
            c
        },
    }
}

/// The guard counts after a whole sequence of calls on a fresh lock.
pub open spec fn lock_run(ops: Seq<LockOp>) -> (nat, nat)
    decreases ops.len(),
{
    if ops.len() == 0 {
        (0nat, 0nat)
    } else {
        lock_step(lock_run(ops.drop_last()), ops.last())
    }
}

/// For every sequence of interleaved shared and exclusive acquire/release
/// calls on a fresh lock, at no point does a live exclusive guard coexist
/// with any other live guard, and the live shared guards never exceed
/// `MAX_READERS`.
pub proof fn lemma_guards_never_coexist(ops: Seq<LockOp>)
    ensures
        lock_counts_wf(lock_run(ops)),
    decreases ops.len(),
{
    if ops.len() > 0 {
        lemma_guards_never_coexist(ops.drop_last());
    }
}

/// One full acquire/release cycle: exclusive when `excl` holds, shared
/// otherwise.
pub open spec fn lock_cycle(c: (nat, nat), excl: bool) -> (nat, nat) {
    if excl {
        lock_step(lock_step(c, LockOp::AcquireExclusive), LockOp::ReleaseExclusive)
    } else {
        lock_step(lock_step(c, LockOp::AcquireShared), LockOp::ReleaseShared)
    }
}

/// The guard counts after a sequence of acquire/release cycles on a fresh
/// lock, each cycle shared or exclusive as `kinds` says.
pub open spec fn lock_cycle_run(kinds: Seq<bool>) -> (nat, nat)
    decreases kinds.len(),
{
    if kinds.len() == 0 {
        (0nat, 0nat)
    } else {
        lock_cycle(lock_cycle_run(kinds.drop_last()), kinds.last())
    }
}

/// Release restores exactly the permits acquired: after any number of
/// acquire/release cycles, any mix of shared and exclusive, no guard is live
/// and the pool again holds its full capacity of `MAX_READERS` permits.
pub proof fn lemma_cycles_restore_permits(kinds: Seq<bool>)
    ensures
        lock_cycle_run(kinds) == (0nat, 0nat),
        lock_available(lock_cycle_run(kinds)) == MAX_READERS,
    decreases kinds.len(),
{
    if kinds.len() > 0 {
        lemma_cycles_restore_permits(kinds.drop_last());
    }
}

impl<T> SharedLock<T> {
    /// The guard counts agree with the permit accounting: each shared guard
    /// holds one permit, an exclusive guard holds all of them.
    pub open spec fn wf(&self) -> bool {
        &&& self.pool.wf()
        &&& self.pool.capacity == MAX_READERS
        &&& self.excl_out <= 1
        &&& self.excl_out == 1 ==> self.shared_out == 0
        &&& self.shared_out <= MAX_READERS
        &&& self.pool.available + self.shared_out + MAX_READERS * self.excl_out == MAX_READERS
    }

    /// The current guard counts, in the form the laws above speak of.
    pub open spec fn counts(&self) -> (nat, nat) {
        (self.shared_out as nat, self.excl_out as nat)
    }

    /// Creates an unlocked lock owning `value`.
    pub fn new(value: T) -> (lock: SharedLock<T>)
        ensures
            lock.wf(),
            lock.shared_out == 0,
            lock.excl_out == 0,
            lock.pool.available == MAX_READERS,
            lock.value == value,
    {
        SharedLock { pool: PermitPool::new(MAX_READERS), shared_out: 0, excl_out: 0, value }
    }

    /// Tries to take shared access: one permit. Refused exactly while an
    /// exclusive guard is live or `MAX_READERS` shared guards already are;
    /// a refused call changes nothing, and the caller retries.
    pub fn read(&mut self) -> (g: Option<SharedLockSharedGuard>)
        requires
            old(self).wf(),
        ensures
            final(self).wf(),
            final(self).value == old(self).value,
            final(self).excl_out == old(self).excl_out,
            final(self).counts() == lock_step(old(self).counts(), LockOp::AcquireShared),
            g is Some <==> old(self).excl_out == 0 && old(self).shared_out < MAX_READERS,
            g is Some ==> final(self).shared_out == old(self).shared_out + 1
                && final(self).pool.available == old(self).pool.available - 1
                && g->0.permits == 1,
            g is None ==> *final(self) == *old(self),
    {
        if self.pool.try_acquire(1) {
            self.shared_out = self.shared_out + 1;
            Some(SharedLockSharedGuard { permits: 1 })
        } else {
            None
        }
    }

    /// Tries to take exclusive access: every permit at once. Refused exactly
    /// while any guard is live; a refused call changes nothing, and the
    /// caller retries.
    pub fn write(&mut self) -> (g: Option<SharedLockExclusiveGuard>)
        requires
            old(self).wf(),
        ensures
            final(self).wf(),
            final(self).value == old(self).value,
            final(self).shared_out == old(self).shared_out,
            final(self).counts() == lock_step(old(self).counts(), LockOp::AcquireExclusive),
            g is Some <==> old(self).excl_out == 0 && old(self).shared_out == 0,
            g is Some ==> final(self).excl_out == 1
                && final(self).pool.available == 0
                && g->0.permits == MAX_READERS,
            g is None ==> *final(self) == *old(self),
    {
        if self.pool.try_acquire(MAX_READERS) {
            self.excl_out = 1;
            Some(SharedLockExclusiveGuard { permits: MAX_READERS })
        } else {
            None
        }
    }

    /// Tries to take exclusive access, exactly as `write` does.
    #[allow(non_snake_case)]
    pub fn exclusiveWrite(&mut self) -> (g: Option<SharedLockExclusiveGuard>)
        requires
            old(self).wf(),
        ensures
            final(self).wf(),
            final(self).value == old(self).value,
            final(self).shared_out == old(self).shared_out,
            final(self).counts() == lock_step(old(self).counts(), LockOp::AcquireExclusive),
            g is Some <==> old(self).excl_out == 0 && old(self).shared_out == 0,
            g is Some ==> final(self).excl_out == 1
                && final(self).pool.available == 0
                && g->0.permits == MAX_READERS,
            g is None ==> *final(self) == *old(self),
    {
        self.write()
    }

    /// Releases a shared guard, restoring exactly its one permit.
    pub fn release_shared(&mut self, guard: SharedLockSharedGuard)
        requires
            old(self).wf(),
            old(self).shared_out >= 1,
            guard.permits == 1,
        ensures
            final(self).wf(),
            final(self).value == old(self).value,
            final(self).excl_out == old(self).excl_out,
            final(self).shared_out == old(self).shared_out - 1,
            final(self).pool.available == old(self).pool.available + 1,
            final(self).counts() == lock_step(old(self).counts(), LockOp::ReleaseShared),
    {
        self.pool.release(guard.permits);
        self.shared_out = self.shared_out - 1;
    }

    /// Releases an exclusive guard, restoring exactly its full reservation.
    pub fn release_exclusive(&mut self, guard: SharedLockExclusiveGuard)
        requires
            old(self).wf(),
            old(self).excl_out == 1,
            guard.permits == MAX_READERS,
        ensures
            final(self).wf(),
            final(self).value == old(self).value,
            final(self).shared_out == old(self).shared_out,
            final(self).excl_out == 0,
            final(self).pool.available == MAX_READERS,
            final(self).counts() == lock_step(old(self).counts(), LockOp::ReleaseExclusive),
    {
        self.pool.release(guard.permits);
        self.excl_out = 0;
    }

    /// Read access to the protected value through a live shared guard.
    pub fn borrow<'a>(&'a self, guard: &SharedLockSharedGuard) -> (v: &'a T)
        requires
            self.shared_out >= 1,
            guard.permits == 1,
        ensures
            *v == self.value,
    {
        &self.value
    }

    /// Mutable access to the protected value through a live exclusive guard.
    pub fn borrow_mut<'a>(&'a mut self, guard: &SharedLockExclusiveGuard) -> (v: &'a mut T)
        requires
            old(self).excl_out == 1,
            guard.permits == MAX_READERS,
        ensures
            *v == old(self).value,
            final(self).value == *final(v),
            final(self).pool == old(self).pool,
            final(self).shared_out == old(self).shared_out,
            final(self).excl_out == old(self).excl_out,
    {
        &mut self.value
    }
}

} // verus!
