//! What the services hand to the provider client and get back from it.
use vstd::prelude::*;

use super::audio::AudioFormat;
use super::usage::Usage;

verus! {

/// Audio to be transcribed.
///
/// `temperature` is a binary32 number carried as its bit pattern
/// (`f32::to_bits`).
#[derive(Debug)]
pub struct TranscribePayload {
    pub audio_bytes: Vec<u8>,
    pub format: AudioFormat,
    pub model: Option<String>,
    pub temperature: Option<u32>,
}

/// A transcript and what it cost.
pub struct TranscriptPayload {
    pub text: String,
    pub usage: Option<Usage>,
}

/// Text to be spoken.
///
/// `speed` is a binary32 number carried as its bit pattern (`f32::to_bits`).
pub struct SpeechPayload {
    pub model: Option<String>,
    pub input: String,
    pub voice: String,
    pub speed: Option<u32>,
}

impl TranscribePayload {
    pub fn new(
        audio_bytes: Vec<u8>,
        format: AudioFormat,
        model: Option<String>,
        temperature: Option<u32>,
    ) -> (p: Self)
        ensures
            p.audio_bytes@ == audio_bytes@,
            p.format == format,
            p.model == model,
            p.temperature == temperature,
    {
        TranscribePayload { audio_bytes, format, model, temperature }
    }
}

impl TranscriptPayload {
    pub fn new(text: String, usage: Option<Usage>) -> (p: Self)
        ensures
            p.text == text,
            p.usage == usage,
    {
        TranscriptPayload { text, usage }
    }
}

impl SpeechPayload {
    pub fn new(model: Option<String>, input: String, voice: String, speed: Option<u32>) -> (p: Self)
        ensures
            p.model == model,
            p.input == input,
            p.voice == voice,
            p.speed == speed,
    {
        SpeechPayload { model, input, voice, speed }
    }
}

} // verus!
