//! The server-owned agent configuration and its validation.
//!
//! The server is the sole authority: values arriving at the admin
//! endpoint are clamped and canonicalized here, and the agent only
//! mirrors the result. The cadence is carried in whole milliseconds.

use vstd::prelude::*;
use vstd::string::StringExecFns;
use crate::text::{eq_lowered, lower_chars};

verus! {

/// The cadence/format/quality triple the server pushes to the agent.
pub struct AgentConfig {
    /// Capture cadence in milliseconds; a positive duration.
    pub interval_ms: u64,
    /// Image format name, canonically one of `png`, `jpeg`, `webp`,
    /// `bmp`, `tiff`.
    pub format: String,
    /// Encoder quality setting.
    pub quality: i32,
}

impl Clone for AgentConfig {
    fn clone(&self) -> (r: Self)
        ensures
            r.interval_ms == self.interval_ms,
            r.format@ == self.format@,
            r.quality == self.quality,
    {
        AgentConfig {
            interval_ms: self.interval_ms,
            format: self.format.clone(),
            quality: self.quality,
        }
    }
}

impl Default for AgentConfig {
    /// The configuration a fresh server starts with: 1.5 seconds between
    /// captures, PNG, quality 95.
    fn default() -> (r: AgentConfig)
        ensures
            r.interval_ms == 1500,
            r.format@ == "png"@,
            r.quality == 95,
    {
        AgentConfig { interval_ms: 1500, format: String::from_str("png"), quality: 95 }
    }
}

/// An interval below a tenth of a second is raised to exactly that floor;
/// anything else passes unchanged.
pub open spec fn clamped_interval_ms(v: u64) -> u64 {
    if v < 100 {
        100u64
    } else {
        v
    }
}

/// A quality outside `1..=100` falls back to 75; anything inside passes
/// unchanged.
pub open spec fn clamped_quality(q: i32) -> i32 {
    if 1 <= q && q <= 100 {
        q
    } else {
        75i32
    }
}

/// The canonical format name: the ASCII-lowercased input when it is one
/// of the supported names, with `jpg` folded into `jpeg`, and `png` for
/// anything unsupported.
pub open spec fn canonical_format(s: Seq<char>) -> Seq<char> {
    let l = lower_chars(s);
    if l == "jpg"@ || l == "jpeg"@ {
        "jpeg"@
    } else if l == "png"@ || l == "webp"@ || l == "bmp"@ || l == "tiff"@ {
        l
    } else {
        "png"@
    }
}

/// Executable counterpart of [`canonical_format`].
pub fn canonicalize_format(s: &String) -> (r: String)
    ensures
        r@ == canonical_format(s@),
{
    let sl = s.as_str();
    if eq_lowered(sl, "jpg") || eq_lowered(sl, "jpeg") {
        String::from_str("jpeg")
    } else if eq_lowered(sl, "png") {
        String::from_str("png")
    } else if eq_lowered(sl, "webp") {
        String::from_str("webp")
    } else if eq_lowered(sl, "bmp") {
        String::from_str("bmp")
    } else if eq_lowered(sl, "tiff") {
        String::from_str("tiff")
    } else {
        String::from_str("png")
    }
}

/// Validates and clamps a configuration exactly as the admin endpoint
/// does before it becomes authoritative.
pub fn validate_config(cfg: AgentConfig) -> (r: AgentConfig)
    ensures
        r.interval_ms == clamped_interval_ms(cfg.interval_ms),
        r.quality == clamped_quality(cfg.quality),
        r.format@ == canonical_format(cfg.format@),
{
    let interval_ms = if cfg.interval_ms < 100 {
        100
    } else {
        cfg.interval_ms
    };
    let quality = if cfg.quality < 1 || cfg.quality > 100 {
        75
    } else {
        cfg.quality
    };
    let format = canonicalize_format(&cfg.format);
    AgentConfig { interval_ms, format, quality }
}

} // verus!
