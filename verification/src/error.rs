//! What can go wrong when a directory is opened.

use vstd::prelude::*;

verus! {

/// Why a directory could not be listed.
#[derive(Debug, Clone, Copy, PartialEq, Eq, Structural)]
pub enum Cause {
    /// The directory may not be read.
    PermissionDenied,
    /// No directory stands at the path.
    NotFound,
    /// The read itself failed.
    Fault,
}

/// The errors of the browser.
#[derive(Debug, Clone, Copy, PartialEq, Eq, Structural)]
pub enum ListError {
    /// The directory cannot be listed.
    Unreadable(Cause),
    /// The path given at startup is missing or is no directory.
    InvalidStartupPath,
}

} // verus!
