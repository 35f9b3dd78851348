//! Exclusivity of foreground listening sessions.
//!
//! The capture device tolerates only one active session, so the policy here
//! is deliberate and uniform: every foreground session — consent and
//! dictation alike — must acquire this guard before touching the device and
//! release it when the session ends; a second request while one is active
//! is rejected. The background listener owns its device lifecycle through
//! its own state machine and is not covered by this guard.

use vstd::prelude::*;

verus! {

/// Marks "a foreground listening session is in progress".
#[derive(PartialEq, Eq, Structural, Debug)]
pub struct RecordingGuard {
    active: bool,
}

impl RecordingGuard {
    /// Whether a foreground session currently holds the guard.
    pub closed spec fn is_active(&self) -> bool {
        self.active
    }

    pub fn new() -> (r: RecordingGuard)
        ensures
            !r.is_active(),
    {
        RecordingGuard { active: false }
    }

    /// Claim the guard for a new foreground session. Succeeds exactly when
    /// no session is active; either way the guard is active afterwards.
    pub fn try_acquire(&mut self) -> (ok: bool)
        ensures
            ok == !old(self).is_active(),
            final(self).is_active(),
    {
        if self.active {
            false
        } else {
            self.active = true;
            true
        }
    }

    /// Release the guard when the session ends, on every exit path.
    pub fn release(&mut self)
        ensures
            !final(self).is_active(),
    {
        self.active = false;
    }
}

} // verus!
