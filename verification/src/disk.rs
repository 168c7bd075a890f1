//! Append-only, best-effort disk persistence of frames — the write-only
//! backend of the storage manager.
//!
//! The actual file write happens at the I/O edge; the caller reports each
//! attempt's outcome back here. This type fixes the artifact key of every
//! frame and accounts for each append that succeeded: the log of keys only
//! ever grows, and nothing is ever read back.

use vstd::prelude::*;
use vstd::string::StringExecFns;
use crate::errors::StoreError;
use crate::frame::Frame;
use crate::text::{i64_to_string, signed_dec_rep};

verus! {

/// The file name one frame's artifact is stored under, determined by its
/// id and timestamp alone.
pub open spec fn artifact_name_spec(id: int, timestamp: int) -> Seq<char> {
    "frame_"@ + signed_dec_rep(id) + "_"@ + signed_dec_rep(timestamp) + ".png"@
}

/// Renders the deterministic artifact name of a frame key.
pub fn artifact_name(id: i64, timestamp: i64) -> (r: String)
    ensures
        r@ == artifact_name_spec(id as int, timestamp as int),
{
    let mut s = String::from_str("frame_");
    let id_str = i64_to_string(id);
    s.append(id_str.as_str());
    s.append("_");
    let ts_str = i64_to_string(timestamp);
    s.append(ts_str.as_str());
    s.append(".png");
    proof {
        assert(s@ =~= artifact_name_spec(id as int, timestamp as int));
    }
    s
}

/// What the I/O edge reported for one artifact append.
#[derive(Clone, Copy, Debug, PartialEq, Eq, Structural)]
pub enum DiskWriteOutcome {
    /// The artifact was written durably.
    Written,
    /// The write failed (disk full, permission, ...).
    Failed,
}

/// Write-only disk store: one uniquely keyed artifact per stored frame
/// under a base directory, never deleted, never read back.
pub struct DiskStore {
    base_path: String,
    log: Ghost<Seq<(int, int)>>,
}

impl DiskStore {
    /// The `(id, timestamp)` keys of every artifact appended so far, in
    /// order of appending.
    pub closed spec fn log(&self) -> Seq<(int, int)> {
        self.log@
    }

    /// The base directory the store was rooted at.
    pub closed spec fn base(&self) -> Seq<char> {
        self.base_path@
    }

    /// Creates a store rooted at `base_path` with an empty append log.
    /// Creating the directory itself is the caller's I/O.
    pub fn new(base_path: String) -> (r: DiskStore)
        ensures
            r.base() == base_path@,
            r.log() == Seq::<(int, int)>::empty(),
    {
        DiskStore { base_path, log: Ghost(Seq::empty()) }
    }

    /// The configured base directory.
    pub fn base_path(&self) -> (r: &String)
        ensures
            r@ == self.base(),
    {
        &self.base_path
    }

    /// Accounts for one append attempt of the artifact keyed by `id` and
    /// `timestamp`, as the I/O edge reported it: on success the log grows
    /// by exactly that key; on failure the log is unchanged and the call
    /// fails with [`StoreError::WriteFailure`], fatal to this call only.
    pub fn record_append(&mut self, id: i64, timestamp: i64, outcome: DiskWriteOutcome) -> (r:
        Result<(), StoreError>)
        ensures
            final(self).base() == old(self).base(),
            outcome is Written ==> r is Ok
                && final(self).log() == old(self).log().push((id as int, timestamp as int)),
            outcome is Failed ==> (r matches Err(e) && e == StoreError::WriteFailure)
                && final(self).log() == old(self).log(),
    {
        match outcome {
            DiskWriteOutcome::Written => {
                self.log = Ghost(self.log@.push((id as int, timestamp as int)));
                Ok(())
            },
            DiskWriteOutcome::Failed => Err(StoreError::WriteFailure),
        }
    }

    /// Stores one frame: one uniquely keyed artifact appended under the
    /// base directory, with the outcome the I/O edge reported.
    pub fn store(&mut self, frame: &Frame, outcome: DiskWriteOutcome) -> (r: Result<(), StoreError>)
        ensures
            final(self).base() == old(self).base(),
            outcome is Written ==> r is Ok
                && final(self).log() == old(self).log().push((frame@.id, frame@.timestamp)),
            outcome is Failed ==> (r matches Err(e) && e == StoreError::WriteFailure)
                && final(self).log() == old(self).log(),
    {
        self.record_append(frame.id, frame.timestamp, outcome)
    }

    /// This backend is write-only by design: every read attempt fails
    /// immediately and deterministically.
    pub fn get_latest(&self) -> (r: Result<Frame, StoreError>)
        ensures
            r matches Err(e) && e == StoreError::Unsupported,
    {
        Err(StoreError::Unsupported)
    }
}

} // verus!
