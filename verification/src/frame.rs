//! The unit of data moved through the system: one captured frame and its
//! identifying and temporal metadata.

use vstd::prelude::*;

verus! {

/// One key-value pair of frame metadata.
#[derive(Debug)]
pub struct MetaEntry {
    pub key: String,
    pub value: String,
}

impl Clone for MetaEntry {
    fn clone(&self) -> (r: Self)
        ensures
            r == *self,
    {
        MetaEntry { key: self.key.clone(), value: self.value.clone() }
    }
}

/// Mathematical image of a [`Frame`].
pub ghost struct FrameView {
    pub id: int,
    pub data: Seq<u8>,
    pub timestamp: int,
    pub metadata: Seq<MetaEntry>,
}

/// A stored frame: id, payload bytes, Unix timestamp in seconds, and free
/// string metadata. Produced once by the capture side, immutable thereafter.
#[derive(Debug)]
pub struct Frame {
    pub id: i64,
    pub data: Vec<u8>,
    pub timestamp: i64,
    pub metadata: Vec<MetaEntry>,
}

impl View for Frame {
    type V = FrameView;

    open spec fn view(&self) -> FrameView {
        FrameView {
            id: self.id as int,
            data: self.data@,
            timestamp: self.timestamp as int,
            metadata: self.metadata@,
        }
    }
}

impl Clone for Frame {
    fn clone(&self) -> (r: Self)
        ensures
            r@ == self@,
    {
        let data = self.data.clone();
        let metadata = self.metadata.clone();
        proof {
            assert(data@ =~= self.data@);
            assert(metadata@ =~= self.metadata@);
        }
        Frame { id: self.id, data, timestamp: self.timestamp, metadata }
    }
}

impl Frame {
    /// Builds a frame from its parts.
    pub fn new(id: i64, data: Vec<u8>, timestamp: i64, metadata: Vec<MetaEntry>) -> (r: Frame)
        ensures
            r@.id == id,
            r@.data == data@,
            r@.timestamp == timestamp,
            r@.metadata == metadata@,
    {
        Frame { id, data, timestamp, metadata }
    }
}

} // verus!
