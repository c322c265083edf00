//! Single-flight lock for thumbnail batches.
//!
//! The lock admits exactly one holder at a time. A caller that finds the
//! lock held is refused at once instead of queuing; release puts the lock
//! back to idle on every exit path of the guarded work.

use vstd::prelude::*;

verus! {

/// What a grant attempt does to the lock: the lock is held afterwards in
/// any case, and the attempt succeeds exactly when the lock was idle.
pub open spec fn spec_try_acquire(held: bool) -> (bool, bool) {
    (true, !held)
}

/// Releasing always returns the lock to idle.
pub open spec fn spec_release(held: bool) -> bool {
    false
}

/// The exclusive lock. One value of this type stands for the whole
/// process; the embedding program owns it behind its own synchronisation.
pub struct SingleFlight {
    held: bool,
}

impl SingleFlight {
    /// Whether the lock is currently held.
    pub closed spec fn is_held(&self) -> bool {
        self.held
    }

    /// A fresh lock is idle.
    pub fn new() -> (r: SingleFlight)
        ensures
            !r.is_held(),
    {
        SingleFlight { held: false }
    }

    /// Try to take the lock. Succeeds exactly when the lock was idle;
    /// a refused caller leaves the holder undisturbed.
    pub fn try_acquire(&mut self) -> (granted: bool)
        ensures
            (final(self).is_held(), granted) == spec_try_acquire(old(self).is_held()),
            granted == !old(self).is_held(),
            final(self).is_held(),
    {
        if self.held {
            false
        } else {
            self.held = true;
            true
        }
    }

    /// Give the lock back. Runs once per successful acquisition, on
    /// success and failure paths alike.
    pub fn release(&mut self)
        ensures
            final(self).is_held() == spec_release(old(self).is_held()),
            !final(self).is_held(),
    {
        self.held = false;
    }
}

/// Single-flight law: while one holder is in flight a second attempt is
/// refused, and once the lock is released an attempt succeeds again,
/// whatever state the lock started in.
pub proof fn lemma_single_flight_exclusion(held: bool)
    ensures
        spec_try_acquire(spec_try_acquire(held).0).1 == false,
        spec_try_acquire(spec_release(spec_try_acquire(held).0)).1 == true,
{
}

} // verus!
