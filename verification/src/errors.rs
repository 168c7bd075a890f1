//! Error taxonomy of the storage side.

use vstd::prelude::*;

verus! {

/// Errors surfaced by the frame stores and the storage manager.
#[derive(Clone, Copy, Debug, PartialEq, Eq, Structural)]
pub enum StoreError {
    /// The store has never received a frame; nothing to return.
    Empty,
    /// The backend has no read path by design.
    Unsupported,
    /// A disk append failed; fatal to that particular store call.
    WriteFailure,
    /// A disk-backed mode was requested without a base directory.
    DiskPathRequired,
}

impl StoreError {
    /// A short, stable description for logs and HTTP bodies.
    pub fn describe(&self) -> (r: &'static str)
        ensures
            *self is Empty ==> r@ == "no frames available"@,
            *self is Unsupported ==> r@ == "not implemented"@,
            *self is WriteFailure ==> r@ == "failed to write frame to disk"@,
            *self is DiskPathRequired ==> r@ == "disk path required for disk/hybrid mode"@,
    {
        match self {
            StoreError::Empty => "no frames available",
            StoreError::Unsupported => "not implemented",
            StoreError::WriteFailure => "failed to write frame to disk",
            StoreError::DiskPathRequired => "disk path required for disk/hybrid mode",
        }
    }
}

} // verus!
