//! The capture engine's configuration and frame record.
//!
//! Talking to the screen and encoding pixels is the capture collaborator's
//! work at the I/O edge; what is verified here is the record every capture
//! must produce — its id, dimensions, format name, and a byte count that
//! matches the payload.

use vstd::prelude::*;
use vstd::string::StringExecFns;

verus! {

/// The fixed set of image formats the engine can be asked to encode.
#[derive(Clone, Copy, Debug, PartialEq, Eq, Structural)]
pub enum FrameFormat {
    Png,
    Jpeg,
    Webp,
    Bmp,
    Tiff,
}

/// The lowercase name of a format, as it travels in frame records.
pub open spec fn format_name(f: FrameFormat) -> Seq<char> {
    match f {
        FrameFormat::Png => "png"@,
        FrameFormat::Jpeg => "jpeg"@,
        FrameFormat::Webp => "webp"@,
        FrameFormat::Bmp => "bmp"@,
        FrameFormat::Tiff => "tiff"@,
    }
}

impl FrameFormat {
    /// The lowercase name of this format.
    pub fn name(&self) -> (r: String)
        ensures
            r@ == format_name(*self),
    {
        match self {
            FrameFormat::Png => String::from_str("png"),
            FrameFormat::Jpeg => String::from_str("jpeg"),
            FrameFormat::Webp => String::from_str("webp"),
            FrameFormat::Bmp => String::from_str("bmp"),
            FrameFormat::Tiff => String::from_str("tiff"),
        }
    }
}

/// Configuration of the capture engine: cadence and encoding format.
#[derive(Clone, Copy, Debug, PartialEq, Eq, Structural)]
pub struct Config {
    /// Capture cadence in milliseconds.
    pub interval_ms: u64,
    /// Format frames are encoded in.
    pub format: FrameFormat,
}

impl Default for Config {
    /// 1.5 seconds between captures, encoded as PNG.
    fn default() -> (r: Config)
        ensures
            r.interval_ms == 1500,
            r.format is Png,
    {
        Config { interval_ms: 1500, format: FrameFormat::Png }
    }
}

/// One captured frame as the agent ships it: payload bytes plus the
/// record describing them.
pub struct Frame {
    pub id: i64,
    pub timestamp: i64,
    pub data: Vec<u8>,
    pub width: u32,
    pub height: u32,
    pub format: String,
    pub size_bytes: i64,
}

/// The capture engine: holds the configuration the I/O edge captures and
/// encodes under.
pub struct Engine {
    config: Config,
}

impl Engine {
    /// An engine with the given configuration.
    pub fn new(config: Config) -> (r: Engine)
        ensures
            r.config_spec() == config,
    {
        Engine { config }
    }

    /// The configuration the engine runs under.
    pub closed spec fn config_spec(&self) -> Config {
        self.config
    }

    /// The engine's configuration.
    pub fn config(&self) -> (r: Config)
        ensures
            r == self.config_spec(),
    {
        self.config
    }

    /// Assembles the record of one successful capture: the encoded bytes
    /// the I/O edge produced, under the id and timestamp of this cycle.
    /// The recorded size is exactly the payload's length and the format
    /// name is the configured format's.
    pub fn assemble_frame(
        &self,
        frame_id: i64,
        timestamp: i64,
        data: Vec<u8>,
        width: u32,
        height: u32,
    ) -> (r: Frame)
        requires
            data@.len() <= i64::MAX,
        ensures
            r.id == frame_id,
            r.timestamp == timestamp,
            r.data@ == data@,
            r.width == width,
            r.height == height,
            r.format@ == format_name(self.config_spec().format),
            r.size_bytes == data@.len(),
    {
        let size_bytes = data.len() as i64;
        let format = self.config.format.name();
        Frame { id: frame_id, timestamp, data, width, height, format, size_bytes }
    }
}

} // verus!
