//! Lifecycle controller: the shared run-state that coordinates shutdown.
//!
//! One value governs both pipelines.  It starts as `Running`, is moved to
//! `Stopping` exactly once by the external signal collaborator, and never
//! moves backward.  Both pipelines only read it; the surrounding program
//! owns the single writer and the sharing.

use vstd::prelude::*;

verus! {

/// The shared run-state.  `Stopped` is implicit: it is a property of the
/// pipelines (both have observed `Stopping` and left their loop), not of
/// this value.
#[derive(Clone, Copy, PartialEq, Eq, Structural, Debug)]
pub enum RunState {
    /// Streaming; both pipelines keep iterating.
    Running,
    /// Shutdown was requested; pipelines terminate at their next callback.
    Stopping,
}

/// A cancellation token: the run-state as each pipeline's entry point sees
/// it.  Readable without locks; written exactly once, by `signal_stop`.
pub struct CancelToken {
    /// The current run-state.
    pub state: RunState,
}

impl CancelToken {
    /// The token still allows streaming.
    pub open spec fn spec_running(&self) -> bool {
        self.state == RunState::Running
    }

    /// A fresh token: the link starts in the `Running` state.
    pub fn new() -> (token: CancelToken)
        ensures
            token.spec_running(),
    {
        CancelToken { state: RunState::Running }
    }

    /// Request shutdown.  Sets the run-state to `Stopping`; idempotent, so
    /// a repeated signal changes nothing, and no call ever moves the state
    /// back to `Running`.
    pub fn signal_stop(&mut self)
        ensures
            final(self).state == RunState::Stopping,
            !final(self).spec_running(),
    {
        self.state = RunState::Stopping;
    }

    /// Read-only probe used by both pipelines' driving loops.
    pub fn is_running(&self) -> (r: bool)
        ensures
            r == self.spec_running(),
    {
        match self.state {
            RunState::Running => true,
            RunState::Stopping => false,
        }
    }
}

} // verus!
