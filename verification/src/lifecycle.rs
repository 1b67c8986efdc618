//! The lifecycle guard around the foreign engine's one-time setup.
//!
//! The foreign engine must be initialized exactly once, process-wide, before
//! any other operation touches it, and a failed setup is terminal: the engine
//! cannot be partially initialized, so nothing may retry.  The guard records
//! how far that one-time setup has come and admits the setup call only while
//! nothing has run yet.

use vstd::prelude::*;

verus! {

/// How far the one-time engine setup has come.
#[derive(Clone, Copy, PartialEq, Eq, Structural, Debug)]
pub enum EngineState {
    /// The setup call has not run.
    NotStarted,
    /// The setup call ran and reported success.
    Ready,
    /// The setup call ran and reported failure; the process is unrecoverable.
    Failed,
}

/// The process-wide latch around the one-time setup call.
pub struct LifecycleGuard {
    /// The recorded state of the engine.
    pub state: EngineState,
}

impl LifecycleGuard {
    /// A guard for an engine whose setup has not run.
    pub fn new() -> (r: Self)
        ensures
            r.state is NotStarted,
    {
        LifecycleGuard { state: EngineState::NotStarted }
    }

    /// Whether the one-time setup call must run now: exactly when it has
    /// never run.  Idempotence of the guard is this test — every later call
    /// finds the latch settled and runs nothing.
    pub fn needs_setup(&self) -> (r: bool)
        ensures
            r == (self.state is NotStarted),
    {
        matches!(self.state, EngineState::NotStarted)
    }

    /// Records the outcome of the one-time setup call.  Only the single call
    /// that found the latch unsettled may record an outcome, and a recorded
    /// outcome never changes afterwards: no operation accepts a settled
    /// guard.
    pub fn record_setup(&mut self, ok: bool)
        requires
            old(self).state is NotStarted,
        ensures
            final(self).state == if ok {
                EngineState::Ready
            } else {
                EngineState::Failed
            },
    {
        self.state = if ok {
            EngineState::Ready
        } else {
            EngineState::Failed
        };
    }

    /// Whether the engine is initialized and other operations may touch it.
    pub fn is_ready(&self) -> (r: bool)
        ensures
            r == (self.state is Ready),
    {
        matches!(self.state, EngineState::Ready)
    }

    /// Whether the one-time setup failed, the unrecoverable state in which
    /// the process must abort rather than call the engine again.
    pub fn has_failed(&self) -> (r: bool)
        ensures
            r == (self.state is Failed),
    {
        matches!(self.state, EngineState::Failed)
    }
}

} // verus!
