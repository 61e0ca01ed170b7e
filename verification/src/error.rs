//! The errors that the bridge reports.

use vstd::prelude::*;

verus! {

/// What can go wrong when the bridge is asked for something.
#[derive(Debug)]
pub enum UIError {
    /// The toolkit could not hook into the platform; `error` is the
    /// toolkit's own description, unchanged.
    FailedInitError { error: String },
    /// The toolkit is already running in this process.
    MultipleInitError,
    /// A tab was addressed by an index that the tab group does not have.
    TabGroupIndexOutOfBounds { index: i32, n: i32 },
}

impl UIError {
    /// Whether the caller may simply try again later: true of a second
    /// start-up, which succeeds once the running instance is shut down.
    pub fn is_recoverable(&self) -> (recoverable: bool)
        ensures
            recoverable == (self is MultipleInitError),
    {
        match self {
            UIError::MultipleInitError => true,
            _ => false,
        }
    }
}

} // verus!
