//! The failures that the engine itself can raise.

use crate::time::FileTime;
use vstd::prelude::*;

verus! {

/// A failure raised by a decision of the engine.
///
/// Failures of the filesystem operations that a driver performs on the
/// engine's behalf belong to the driver; only the failures that the engine
/// decides on are listed here.
#[derive(Debug, PartialEq, Eq)]
pub enum SyncError {
    /// The paths handed to the synchroniser cannot be served; the message says why.
    InvalidUsage(String),
    /// The timestamp primitive of the platform reported failure; the
    /// operating system's error code is kept.
    Io(i32),
    /// The time cannot be expressed as an offset from the epoch.
    SystemTime(FileTime),
}

} // verus!
