//! The ways an operation of the launcher fails.

use vstd::prelude::*;

verus! {

/// Why an operation was abandoned. Each is fatal to the operation that
/// raised it and is handed to the caller; nothing is retried.
#[derive(Clone, Copy, Debug, PartialEq, Eq, Structural)]
pub enum LauncherError {
    /// The persisted document is missing, or cannot be read or written.
    Persistence,
    /// The persisted document is not a well-formed list of entries.
    Format,
    /// The shell could not be started at all.
    ProcessLaunch,
}

} // verus!
