//! The OpenRouter client: how calls are framed, and how answers and failures
//! are read.
pub mod client;
pub mod dto;
pub mod encoding;
pub mod endpoint;

pub use client::{
    OpenRouterClient, OpenRouterClientBuilder, ProviderCall, ProviderError, ResponseClass,
    SpeechSynthRequest, SynthesisedSpeech, TranscriptionInput, TranscriptionOutput,
};
