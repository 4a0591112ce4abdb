//! A mutex lock on one of the SIO hardware spinlocks.
//!
//! A read of a spinlock register claims the lock when it is free and answers
//! nonzero; while the lock is held, reads answer zero. A write releases it.
use vstd::prelude::*;
use crate::hal::sio::{lock_acquired, spinlock_address, SioSpinLock, SPINLOCK_COUNT};

verus! {

/// What the lock loop does on one value read from the spinlock register.
#[derive(PartialEq, Eq, Structural, Clone, Copy, Debug)]
pub enum LockStep {
    /// The read claimed the lock: the caller holds it now.
    Acquired,
    /// Another owner holds the lock: read the register again.
    Retry,
}

/// Mutex lock on hardware spinlock `N`.
pub struct PiSpinLock<const N: usize> {
    lock: SioSpinLock<N>,
}

impl<const N: usize> PiSpinLock<N> {
    /// Creates the lock. Only the spinlocks `0..32` exist.
    pub fn new() -> (l: Self)
        requires
            N < SPINLOCK_COUNT,
        ensures
            l.index() == N,
    {
        PiSpinLock { lock: SioSpinLock::<N>::new() }
    }

    /// Which hardware spinlock the lock uses.
    pub open spec fn index(&self) -> nat {
        N as nat
    }

    /// Address of the spinlock register that the lock reads to claim and
    /// writes to release.
    pub fn register_address(&self) -> (a: usize)
        requires
            N < SPINLOCK_COUNT,
        ensures
            a as nat == spinlock_address(N as nat),
    {
        self.lock.register_address()
    }

    /// One attempt: whether the read that answered `read_value` took the lock.
    pub fn try_lock(&self, read_value: u32) -> (acquired: bool)
        ensures
            acquired == (read_value > 0),
    {
        lock_acquired(read_value)
    }

    /// One turn of the blocking lock: it returns once a read has claimed the
    /// lock and reads again after every read that did not.
    pub fn lock(&self, read_value: u32) -> (step: LockStep)
        ensures
            step == (if read_value > 0 { LockStep::Acquired } else { LockStep::Retry }),
    {
        if lock_acquired(read_value) {
            LockStep::Acquired
        } else {
            LockStep::Retry
        }
    }
}

} // verus!
