//! Exclusion primitive guarding shared mode and configuration state.
//!
//! The device runs single-core cooperative tasks, so the lock is modelled as
//! a plain flag: a free lock is taken on the first try, and taking a lock
//! that is already held would spin forever, which the contracts rule out.

use vstd::prelude::*;

verus! {

/// A minimal spinlock usable from cooperative tasks.
pub struct RawSpinlock {
    pub locked: bool,
}

impl RawSpinlock {
    /// A fresh, unheld lock.
    pub fn new() -> (s: RawSpinlock)
        ensures
            !s.locked,
    {
        RawSpinlock { locked: false }
    }

    /// Spins until the lock is acquired. Under cooperative single-core
    /// scheduling no other task can run meanwhile, so acquiring a held lock
    /// would never terminate; the precondition rules it out.
    pub fn lock(&mut self)
        requires
            !old(self).locked,
        ensures
            final(self).locked,
    {
        loop
            invariant_except_break
                !self.locked,
            ensures
                self.locked,
            decreases 0nat,
        {
            if self.try_lock() {
                break;
            }
        }
    }

    /// Acquires the lock if and only if it is currently free.
    pub fn try_lock(&mut self) -> (acquired: bool)
        ensures
            acquired == !old(self).locked,
            final(self).locked,
    {
        if self.locked {
            false
        } else {
            self.locked = true;
            true
        }
    }

    /// Releases the lock.
    pub fn unlock(&mut self)
        ensures
            !final(self).locked,
    {
        self.locked = false;
    }
}

/// A value guarded by a [`RawSpinlock`]. Acquisition and release are
/// explicit, and the contracts track who holds the lock.
pub struct Mutex<T> {
    pub raw: RawSpinlock,
    pub value: T,
}

impl<T> Mutex<T> {
    /// Wraps `value` behind a fresh, unheld lock.
    pub fn new(value: T) -> (m: Mutex<T>)
        ensures
            m.value == value,
            !m.raw.locked,
    {
        Mutex { raw: RawSpinlock::new(), value }
    }
}

} // verus!
