//! Re-encoding audio with FFmpeg: the encoder settings for each target format
//! and the command line that runs FFmpeg.
pub mod config;
pub mod ffmpeg;

pub use config::TranscoderConfig;
pub use ffmpeg::{EncodeParams, FfmpegTranscoder, TranscodeError, TranscodePlan};
