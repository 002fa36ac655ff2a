//! Tracks the supervised server process: at most one live child at any
//! instant. The OS-level spawn, terminate and reap are performed by the
//! calling layer; this type owns the decision of which handle to stop and
//! when a new one may be tracked, so a new child can only be recorded once
//! the previous one has been handed out for termination.

use vstd::prelude::*;

verus! {

/// The supervisor's state: the handle of the tracked child process, if one
/// is live. Handles are opaque tokens assigned by the calling layer.
pub struct ServerProcess {
    child: Option<u64>,
}

impl View for ServerProcess {
    type V = Option<u64>;

    closed spec fn view(&self) -> Option<u64> {
        self.child
    }
}

impl ServerProcess {
    /// A supervisor with no child tracked.
    pub fn new() -> (s: Self)
        ensures
            s@ is None,
    {
        ServerProcess { child: None }
    }

    /// Hand out the tracked child for termination, leaving the supervisor in
    /// the "no child" state. With no child tracked this is a no-op that
    /// returns `None`.
    pub fn stop(&mut self) -> (to_reap: Option<u64>)
        ensures
            final(self)@ is None,
            to_reap == old(self)@,
    {
        let to_reap = self.child;
        self.child = None;
        to_reap
    }

    /// Record the outcome of a spawn: the new child's handle, or `None` when
    /// the spawn failed, which leaves the supervisor in the "no child" state
    /// rather than aborting. A spawn may only be recorded once the previous
    /// child has been handed out for termination.
    pub fn record_spawn(&mut self, outcome: Option<u64>)
        requires
            old(self)@ is None,
        ensures
            final(self)@ == outcome,
    {
        self.child = outcome;
    }

    /// The handle of the tracked child, if any.
    pub fn current_child(&self) -> (r: Option<u64>)
        ensures
            r == self@,
    {
        self.child
    }
}

} // verus!
