//! The storage manager: selects and combines the in-memory ring buffer and
//! the disk log according to a fixed mode, and is the sole entry point of
//! the upload-receiving side.
//!
//! A store call runs in two steps so that the in-memory write commits
//! before any disk I/O is attempted, exactly as the read side may observe
//! it: [`Manager::store`] performs the memory half and says whether a disk
//! append is due; the caller performs that I/O and hands the outcome to
//! [`Manager::record_disk_write`], which yields the overall result. In
//! hybrid mode a failed disk write therefore reports failure even though
//! the frame is already retrievable — a deliberate, observable
//! partial-failure state.

use vstd::prelude::*;
use crate::disk::{DiskStore, DiskWriteOutcome};
use crate::errors::StoreError;
use crate::frame::{Frame, FrameView};
use crate::ring::{MemoryStore, RingView};

verus! {

/// Which backends a manager writes to and reads from, fixed for its
/// lifetime.
#[derive(Clone, Copy, Debug, PartialEq, Eq, Structural)]
pub enum StorageMode {
    /// Ring buffer only.
    Memory,
    /// Disk log only; reads consult the (forever empty) ring buffer.
    Disk,
    /// Ring buffer first, then disk.
    Hybrid,
}

impl StorageMode {
    /// Whether a store in this mode writes the ring buffer.
    pub open spec fn writes_memory(self) -> bool {
        self is Memory || self is Hybrid
    }

    /// Whether a store in this mode appends to the disk log.
    pub open spec fn writes_disk(self) -> bool {
        self is Disk || self is Hybrid
    }
}

/// What the I/O edge must do to finish a store: nothing, or append one
/// artifact for the given frame key.
#[derive(Clone, Copy, Debug, PartialEq, Eq, Structural)]
pub enum DiskRequest {
    /// No disk append is due in this mode.
    Skip,
    /// Append one artifact named from this id and timestamp.
    Append { id: i64, timestamp: i64 },
}

/// Mode-dispatching storage manager over the two backends.
pub struct Manager {
    memory: MemoryStore,
    disk: Option<DiskStore>,
    mode: StorageMode,
}

impl Manager {
    /// The configured mode.
    pub closed spec fn mode_spec(&self) -> StorageMode {
        self.mode
    }

    /// The ring buffer's mathematical state.
    pub closed spec fn mem(&self) -> RingView {
        self.memory@
    }

    /// Whether a disk store is attached.
    pub closed spec fn has_disk(&self) -> bool {
        self.disk is Some
    }

    /// The keys appended to the disk log so far.
    pub closed spec fn disk_log(&self) -> Seq<(int, int)> {
        if self.disk is Some {
            self.disk->0.log()
        } else {
            Seq::empty()
        }
    }

    /// A manager is well formed when its ring buffer is and it carries a
    /// disk store exactly in the modes that write to disk.
    pub open spec fn wf(&self) -> bool {
        &&& self.mem().wf()
        &&& (self.mode_spec().writes_disk() <==> self.has_disk())
    }

    /// Creates a manager. The ring buffer always exists; a disk store is
    /// attached in the disk-writing modes and requires a base directory,
    /// without which construction fails.
    pub fn new(mode: StorageMode, memory_size: usize, disk_path: Option<String>) -> (r: Result<
        Manager,
        StoreError,
    >)
        requires
            memory_size >= 1,
        ensures
            match r {
                Ok(m) => {
                    &&& m.wf()
                    &&& m.mode_spec() == mode
                    &&& m.mem() == RingView::empty(memory_size as nat)
                    &&& m.disk_log() == Seq::<(int, int)>::empty()
                    &&& (mode.writes_disk() ==> disk_path is Some)
                },
                Err(e) => {
                    &&& e == StoreError::DiskPathRequired
                    &&& mode.writes_disk()
                    &&& disk_path is None
                },
            },
            r is Ok <==> (mode.writes_disk() ==> disk_path is Some),
    {
        let memory = MemoryStore::new(memory_size);
        let needs_disk = match mode {
            StorageMode::Disk | StorageMode::Hybrid => true,
            StorageMode::Memory => false,
        };
        let disk = if needs_disk {
            match disk_path {
                Some(path) => Some(DiskStore::new(path)),
                None => {
                    return Err(StoreError::DiskPathRequired);
                },
            }
        } else {
            None
        };
        Ok(Manager { memory, disk, mode })
    }

    /// The configured mode.
    pub fn mode(&self) -> (r: StorageMode)
        ensures
            r == self.mode_spec(),
    {
        self.mode
    }

    /// First half of a store: commits the frame to the ring buffer in the
    /// memory-writing modes, and says whether the I/O edge must append a
    /// disk artifact before the store can be called complete.
    pub fn store(&mut self, frame: &Frame) -> (req: DiskRequest)
        requires
            old(self).wf(),
        ensures
            final(self).wf(),
            final(self).mode_spec() == old(self).mode_spec(),
            final(self).disk_log() == old(self).disk_log(),
            old(self).mode_spec().writes_memory()
                ==> final(self).mem() == old(self).mem().store_one(frame@),
            !old(self).mode_spec().writes_memory() ==> final(self).mem() == old(self).mem(),
            old(self).mode_spec().writes_disk()
                ==> req == (DiskRequest::Append { id: frame.id, timestamp: frame.timestamp }),
            !old(self).mode_spec().writes_disk() ==> req is Skip,
    {
        match self.mode {
            StorageMode::Memory | StorageMode::Hybrid => {
                self.memory.store(frame.clone());
            },
            StorageMode::Disk => {},
        }
        match self.mode {
            StorageMode::Disk | StorageMode::Hybrid => DiskRequest::Append {
                id: frame.id,
                timestamp: frame.timestamp,
            },
            StorageMode::Memory => DiskRequest::Skip,
        }
    }

    /// Second half of a store: folds in what the I/O edge did about the
    /// disk request. A skipped append succeeds; a performed append
    /// succeeds or fails exactly as reported, and a failure surfaces as
    /// [`StoreError::WriteFailure`] — even though, in hybrid mode, the
    /// in-memory copy is already visible to readers.
    pub fn record_disk_write(&mut self, req: DiskRequest, outcome: DiskWriteOutcome) -> (r: Result<
        (),
        StoreError,
    >)
        requires
            old(self).wf(),
            req is Append ==> old(self).has_disk(),
        ensures
            final(self).wf(),
            final(self).mode_spec() == old(self).mode_spec(),
            final(self).mem() == old(self).mem(),
            req is Skip ==> r is Ok && final(self).disk_log() == old(self).disk_log(),
            req matches DiskRequest::Append { id, timestamp } ==> {
                &&& outcome is Written ==> r is Ok
                    && final(self).disk_log() == old(self).disk_log().push(
                        (id as int, timestamp as int))
                &&& outcome is Failed ==> (r matches Err(e) && e == StoreError::WriteFailure)
                    && final(self).disk_log() == old(self).disk_log()
            },
    {
        match req {
            DiskRequest::Skip => Ok(()),
            DiskRequest::Append { id, timestamp } => {
                match &mut self.disk {
                    Some(disk) => disk.record_append(id, timestamp, outcome),
                    None => vstd::pervasive::unreached(),
                }
            },
        }
    }

    /// Retrieves the most recent frame, always from the ring buffer. In
    /// disk mode the buffer never receives a frame, so every read fails
    /// with [`StoreError::Empty`].
    pub fn get_latest(&self) -> (r: Result<Frame, StoreError>)
        requires
            self.wf(),
        ensures
            match r {
                Ok(f) => self.mem().frames.len() > 0 && f@ == self.mem().latest(),
                Err(e) => self.mem().frames.len() == 0 && e == StoreError::Empty,
            },
    {
        self.memory.get_latest()
    }

    /// A point-in-time snapshot of the resident frames of the ring
    /// buffer, in positional order.
    pub fn list(&self) -> (r: Vec<Frame>)
        ensures
            r@.map_values(|f: Frame| f@) == self.mem().frames,
    {
        self.memory.list()
    }
}

/// The hybrid-mode partial-failure state, preserved as deliberate,
/// observable behavior: [`Manager::store`] commits the frame to the ring
/// buffer before any disk I/O, so when [`Manager::record_disk_write`]
/// then reports [`StoreError::WriteFailure`], the very frame whose store
/// "failed" is already what [`Manager::get_latest`] returns.
pub proof fn lemma_hybrid_partial_failure(mem: RingView, f: FrameView)
    requires
        mem.wf(),
    ensures
        mem.store_one(f).wf(),
        mem.store_one(f).frames.len() > 0,
        mem.store_one(f).latest() == f,
{
    crate::ring::lemma_just_stored_is_latest(mem, f);
}

} // verus!
