//! The data carried between agent and collector, and the decisions the
//! transport makes about HTTP outcomes. The HTTP client itself lives at
//! the I/O edge.

use vstd::prelude::*;
use crate::errors::StoreError;

verus! {

/// The record describing one uploaded frame.
pub struct FrameMetadata {
    pub frame_id: i64,
    /// Unix timestamp in seconds.
    pub timestamp: i64,
    pub size_bytes: i64,
    pub format: String,
}

/// One upload: the frame's record and its payload bytes.
pub struct UploadRequest {
    pub metadata: FrameMetadata,
    pub data: Vec<u8>,
}

/// The collector's acknowledgement of one upload.
pub struct UploadResponse {
    pub success: bool,
    pub message: String,
    pub frame_id: i64,
}

/// Whether an HTTP status code counts as a successful upload or probe
/// answer: exactly the 2xx class.
pub fn is_success_status(code: u16) -> (r: bool)
    ensures
        r == (200 <= code <= 299),
{
    200 <= code && code <= 299
}

/// Frame fan-out endpoint; accepts every broadcast.
pub struct WebSocketServer {
}

impl WebSocketServer {
    /// A fan-out endpoint with no subscribers yet.
    pub fn new() -> WebSocketServer {
        WebSocketServer {  }
    }

    /// Hands one payload to every subscriber; never fails.
    pub fn broadcast(&self, data: &Vec<u8>) -> (r: Result<(), StoreError>)
        ensures
            r is Ok,
    {
        let _ = data;
        Ok(())
    }
}

impl Default for WebSocketServer {
    fn default() -> WebSocketServer {
        WebSocketServer::new()
    }
}

} // verus!
