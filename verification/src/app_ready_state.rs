//! One-shot readiness latch that delays background startup until the UI
//! handshake has completed.
//!
//! The latch itself is a monotone boolean: it starts unset, `mark_ready`
//! sets it, and nothing ever clears it again.  Blocking callers park on a
//! host-side condition variable around this state; the state transitions and
//! the release decision live here.

use vstd::prelude::*;

verus! {

/// The one-way readiness latch.  `ready` starts `false` and is only ever
/// driven to `true`; once set it never resets.
pub struct AppReadyState {
    ready: bool,
}

impl AppReadyState {
    /// True once the UI handshake has marked the application loaded.
    pub closed spec fn is_marked(&self) -> bool {
        self.ready
    }

    /// A fresh latch is unset: no waiter may pass yet.
    pub fn new() -> (s: Self)
        ensures
            !s.is_marked(),
    {
        AppReadyState { ready: false }
    }

    /// Sets the latch.  Idempotent, and monotone: from any prior state the
    /// latch is marked afterwards, so waiters released once stay released.
    pub fn mark_ready(&mut self)
        ensures
            final(self).is_marked(),
    {
        self.ready = true;
    }

    /// Release decision for a waiter: true exactly when the latch is set.
    /// A caller that arrives after `mark_ready` is released immediately;
    /// one that arrives before parks until the state changes and asks again.
    pub fn wait_for_ready(&self) -> (released: bool)
        ensures
            released == self.is_marked(),
    {
        self.ready
    }
}

} // verus!
