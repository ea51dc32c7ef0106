//! Panic bomb: a scope guard that makes an abort the default outcome of any
//! non-normal exit from a guarded region.
//!
//! The library invokes caller-supplied callbacks while it is positioned inside
//! a foreign, not-unwind-safe stack traversal. If such a callback panics,
//! letting the panic unwind through the foreign boundary would be undefined
//! behavior, so the bomb is armed immediately before the callback runs and
//! disarmed immediately after it returns normally; a bomb whose scope ends
//! while still armed demands an unconditional process abort. The abort itself
//! is performed by the unverified runtime layer from the answer of
//! [`Bomb::should_abort`].

use vstd::prelude::*;

verus! {

/// A scope guard constructed armed; `disarm` flips it to inert.
pub struct Bomb {
    pub armed: bool,
}

impl Bomb {
    /// A fresh bomb is armed: an abort is the default outcome until the
    /// guarded callback has returned normally.
    pub fn new() -> (b: Bomb)
        ensures
            b.armed,
    {
        Bomb { armed: true }
    }

    /// Flip the bomb to inert; called only after the guarded callback has
    /// returned normally.
    pub fn disarm(&mut self)
        ensures
            !final(self).armed,
    {
        self.armed = false;
    }

    /// The decision taken when the bomb's scope ends: the process must abort
    /// exactly when the bomb is still armed. A bomb dropped after `disarm`
    /// never aborts; one dropped while still armed always does.
    pub fn should_abort(&self) -> (r: bool)
        ensures
            r == self.armed,
    {
        self.armed
    }
}

} // verus!
