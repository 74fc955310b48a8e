//! Audio held in memory, with the format it is encoded in.
pub mod format;

pub use format::{AudioFormat, FormatParseError, OutputFormat};

use vstd::prelude::*;

verus! {

/// Encoded audio and its format.
#[derive(Debug, Clone)]
pub struct SourceAudio {
    pub bytes: Vec<u8>,
    pub format: AudioFormat,
}

impl SourceAudio {
    pub fn new(bytes: Vec<u8>, format: AudioFormat) -> (a: Self)
        ensures
            a.bytes@ == bytes@,
            a.format == format,
    {
        SourceAudio { bytes, format }
    }
}

} // verus!
