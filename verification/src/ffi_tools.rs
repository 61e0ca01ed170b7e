//! The process-wide record of whether the toolkit is running.

use vstd::prelude::*;

verus! {

/// Whether the toolkit has been started and not yet shut down.
///
/// A process keeps one of these for its whole life.
pub struct ProcessGuard {
    initialized: bool,
}

impl ProcessGuard {
    /// The flag as a plain value.
    pub closed spec fn view(&self) -> bool {
        self.initialized
    }

    /// The guard of a process in which the toolkit has not been started.
    pub fn new() -> (guard: ProcessGuard)
        ensures
            !guard@,
    {
        ProcessGuard { initialized: false }
    }

    /// Records that the toolkit is running.
    ///
    /// Marking a running toolkit as started again is a logic error of the
    /// caller, so the contract leaves that input out.
    pub fn set_initialized(&mut self)
        requires
            !old(self)@,
        ensures
            final(self)@,
    {
        self.initialized = true;
    }

    /// Records that the toolkit is no longer running.
    pub fn unset_initialized(&mut self)
        ensures
            !final(self)@,
    {
        self.initialized = false;
    }
}

/// Whether the toolkit is marked as running.
pub fn is_initialized(guard: &ProcessGuard) -> (running: bool)
    ensures
        running == guard@,
{
    guard.initialized
}

} // verus!
