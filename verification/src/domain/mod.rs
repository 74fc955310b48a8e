pub mod audio;
pub mod audio_io;
pub mod error;
pub mod text;
pub mod usage;

pub use audio_io::{SpeechPayload, TranscribePayload, TranscriptPayload};
pub use error::{AppError, AppErrorView, AppResult};
pub use usage::Usage;
