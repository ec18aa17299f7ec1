//! A write multiplexer: serializes access to one owned output device among
//! many callers through a counting-permit pool.
//!
//! A regular `write` or `flush` takes one permit for the duration of the
//! call, so with the default capacity of one permit all writes exclude each
//! other; a larger capacity is the policy knob for a bounded concurrency
//! budget. `acquire` reserves every permit at once, so no other write can be
//! in flight or start until the guard is released.
//!
//! The device is modeled as the sequence of bytes it has accepted, in order;
//! the task that owns the real device drains that sequence. An acquisition
//! the pool cannot grant is refused with nothing changed, and the runtime
//! driving the multiplexer retries it.
use crate::permits::PermitPool;
use vstd::prelude::*;

verus! {

/// A multiplexer owning one output device and the permit pool that
/// serializes access to it.
pub struct WriteMux {
    /// The permit pool; writes take one permit, an exclusive reservation
    /// takes all of them.
    pub pool: PermitPool,
    /// The owned device, as the bytes it has accepted so far.
    pub out: Vec<u8>,
}

/// A live exclusive reservation of the whole permit pool.
pub struct WriteMuxGuard {
    pub permits: usize,
}

/// A regular writer's permit, held across a write that is in flight under
/// the bounded-concurrency policy.
pub struct WritePermit {
    pub permits: usize,
}

/// The device contents after a sequence of whole writes.
pub open spec fn mux_write_run(out: Seq<u8>, bufs: Seq<Seq<u8>>) -> Seq<u8>
    decreases bufs.len(),
{
    if bufs.len() == 0 {
        out
    } else {
        mux_write_run(out, bufs.drop_last()) + bufs.last()
    }
}

/// Writes land on the device whole and in acquisition order: after any
/// buffers are written in some order, the device holds exactly the prior
/// bytes followed by the concatenation of those buffers in that order — no
/// write is interleaved with another at the byte level.
pub proof fn lemma_writes_concatenate(out: Seq<u8>, bufs: Seq<Seq<u8>>)
    ensures
        mux_write_run(out, bufs) == out + bufs.flatten(),
    decreases bufs.len(),
{
    bufs.lemma_flatten_and_flatten_alt_are_equivalent();
    if bufs.len() == 0 {
        assert(mux_write_run(out, bufs) =~= out + bufs.flatten());
    } else {
        lemma_writes_concatenate(out, bufs.drop_last());
        bufs.drop_last().lemma_flatten_and_flatten_alt_are_equivalent();
        assert(mux_write_run(out, bufs) =~= out + bufs.flatten_alt());
    }
}

impl WriteMux {
    pub open spec fn wf(&self) -> bool {
        &&& self.pool.wf()
        &&& self.pool.capacity >= 1
    }

    /// A fresh multiplexer with the default policy of strict mutual
    /// exclusion: a single permit.
    pub fn new() -> (m: WriteMux)
        ensures
            m.wf(),
            m.pool.capacity == 1,
            m.pool.available == 1,
            m.out@ == Seq::<u8>::empty(),
    {
        WriteMux { pool: PermitPool::new(1), out: Vec::new() }
    }

    /// A fresh multiplexer with a bounded concurrency budget of `capacity`
    /// permits: up to `capacity` regular writers at once, an exclusive
    /// reservation still taking all of them.
    pub fn with_capacity(capacity: usize) -> (m: WriteMux)
        requires
            capacity >= 1,
        ensures
            m.wf(),
            m.pool.capacity == capacity,
            m.pool.available == capacity,
            m.out@ == Seq::<u8>::empty(),
    {
        WriteMux { pool: PermitPool::new(capacity), out: Vec::new() }
    }

    /// Writes `buf` to the device under one permit, releasing the permit
    /// whatever happens, and returns the byte count. Refused exactly when no
    /// permit is free — while an exclusive reservation is live, or the
    /// concurrency budget is spent — with nothing changed.
    pub fn write(&mut self, buf: &[u8]) -> (r: Option<usize>)
        requires
            old(self).wf(),
        ensures
            final(self).wf(),
            final(self).pool == old(self).pool,
            r is Some <==> old(self).pool.available >= 1,
            r is Some ==> r == Some(buf@.len() as usize)
                && final(self).out@ == old(self).out@ + buf@,
            r is None ==> *final(self) == *old(self),
    {
        if self.pool.try_acquire(1) {
            self.out.extend_from_slice(buf);
            self.pool.release(1);
            Some(buf.len())
        } else {
            None
        }
    }

    /// Flushes the device under one permit, releasing the permit whatever
    /// happens. Refused exactly when no permit is free, with nothing
    /// changed.
    pub fn flush(&mut self) -> (r: Option<()>)
        requires
            old(self).wf(),
        ensures
            final(self).wf(),
            *final(self) == *old(self),
            r is Some <==> old(self).pool.available >= 1,
    {
        if self.pool.try_acquire(1) {
            self.pool.release(1);
            Some(())
        } else {
            None
        }
    }

    /// Takes one permit for a regular writer whose operation stays in
    /// flight; the writer performs its writes under the permit and hands it
    /// back with `end_write`. Refused exactly when no permit is free — the
    /// concurrency budget is spent or an exclusive reservation is live —
    /// with nothing changed.
    pub fn begin_write(&mut self) -> (p: Option<WritePermit>)
        requires
            old(self).wf(),
        ensures
            final(self).wf(),
            final(self).out@ == old(self).out@,
            final(self).pool.capacity == old(self).pool.capacity,
            p is Some <==> old(self).pool.available >= 1,
            p is Some ==> final(self).pool.available == old(self).pool.available - 1
                && p->0.permits == 1,
            p is None ==> *final(self) == *old(self),
    {
        if self.pool.try_acquire(1) {
            Some(WritePermit { permits: 1 })
        } else {
            None
        }
    }

    /// Writes `buf` to the device under a permit already held.
    pub fn write_with(&mut self, permit: &WritePermit, buf: &[u8]) -> (n: usize)
        requires
            old(self).wf(),
            permit.permits == 1,
            old(self).pool.available < old(self).pool.capacity,
        ensures
            final(self).wf(),
            final(self).pool == old(self).pool,
            n == buf@.len(),
            final(self).out@ == old(self).out@ + buf@,
    {
        self.out.extend_from_slice(buf);
        buf.len()
    }

    /// Hands a regular writer's permit back, restoring exactly it.
    pub fn end_write(&mut self, permit: WritePermit)
        requires
            old(self).wf(),
            permit.permits == 1,
            old(self).pool.available < old(self).pool.capacity,
        ensures
            final(self).wf(),
            final(self).out@ == old(self).out@,
            final(self).pool.capacity == old(self).pool.capacity,
            final(self).pool.available == old(self).pool.available + 1,
    {
        self.pool.release(permit.permits);
    }

    /// Reserves every permit in the pool. Refused exactly while any permit
    /// is held — so it succeeds only once every regular writer in flight
    /// has released — with nothing changed.
    pub fn acquire(&mut self) -> (g: Option<WriteMuxGuard>)
        requires
            old(self).wf(),
        ensures
            final(self).wf(),
            final(self).out@ == old(self).out@,
            final(self).pool.capacity == old(self).pool.capacity,
            g is Some <==> old(self).pool.available == old(self).pool.capacity,
            g is Some ==> final(self).pool.available == 0
                && g->0.permits == old(self).pool.capacity,
            g is None ==> *final(self) == *old(self),
    {
        let capacity = self.pool.capacity;
        if self.pool.try_acquire(capacity) {
            Some(WriteMuxGuard { permits: capacity })
        } else {
            None
        }
    }

    /// Releases an exclusive reservation, restoring the full pool.
    pub fn release(&mut self, guard: WriteMuxGuard)
        requires
            old(self).wf(),
            old(self).pool.available == 0,
            guard.permits == old(self).pool.capacity,
        ensures
            final(self).wf(),
            final(self).out@ == old(self).out@,
            final(self).pool.capacity == old(self).pool.capacity,
            final(self).pool.available == old(self).pool.capacity,
    {
        self.pool.release(guard.permits);
    }

    /// Hands the bytes the device has accepted, in order, to the caller and
    /// leaves the device empty; the task owning the real device forwards
    /// them.
    pub fn drain(&mut self) -> (v: Vec<u8>)
        ensures
            final(self).pool == old(self).pool,
            v@ == old(self).out@,
            final(self).out@ == Seq::<u8>::empty(),
    {
        let mut v: Vec<u8> = Vec::new();
        core::mem::swap(&mut v, &mut self.out);
        v
    }
}

impl WriteMuxGuard {
    /// Writes `buf` to the device of the multiplexer this guard reserved,
    /// without re-acquiring, and returns the byte count.
    pub fn write(&self, mux: &mut WriteMux, buf: &[u8]) -> (n: usize)
        requires
            old(mux).wf(),
            old(mux).pool.available == 0,
            self.permits == old(mux).pool.capacity,
        ensures
            final(mux).wf(),
            final(mux).pool == old(mux).pool,
            n == buf@.len(),
            final(mux).out@ == old(mux).out@ + buf@,
    {
        mux.out.extend_from_slice(buf);
        buf.len()
    }

    /// Flushes the device of the multiplexer this guard reserved, without
    /// re-acquiring.
    pub fn flush(&self, mux: &mut WriteMux)
        requires
            old(mux).wf(),
            old(mux).pool.available == 0,
            self.permits == old(mux).pool.capacity,
        ensures
            *final(mux) == *old(mux),
    {
    }
}

} // verus!
