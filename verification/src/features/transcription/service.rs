//! The steps of answering a transcription request: the upload is converted to
//! WAV, then sent to the provider.
use vstd::prelude::*;

use super::extractor::TranscriptionForm;
use crate::domain::audio::{AudioFormat, SourceAudio};
use crate::domain::TranscribePayload;

verus! {

/// A planned transcription.
pub struct TranscriptionPlan {
    /// The uploaded audio.
    pub source: SourceAudio,
    /// The format the upload is converted to before it is sent.
    pub target: AudioFormat,
    pub model: String,
    /// A binary32 temperature, as its bit pattern.
    pub temperature: Option<u32>,
}

/// Plans the transcription of a form: its audio is converted to WAV.
pub fn plan_transcription(form: TranscriptionForm) -> (p: TranscriptionPlan)
    ensures
        p.source.bytes@ == form.audio.bytes@,
        p.source.format == form.audio.format,
        p.target == AudioFormat::Wav,
        p.model == form.model,
        p.temperature == form.temperature,
{
    TranscriptionPlan {
        source: SourceAudio::new(form.audio.bytes, form.audio.format),
        target: AudioFormat::Wav,
        model: form.model,
        temperature: form.temperature,
    }
}

impl TranscriptionPlan {
    /// What is sent once the audio is converted: the converted bytes, marked
    /// as WAV, with the form's model and temperature.
    pub fn payload(self, converted: SourceAudio) -> (p: TranscribePayload)
        ensures
            p.audio_bytes@ == converted.bytes@,
            p.format == AudioFormat::Wav,
            p.model == Some(self.model),
            p.temperature == self.temperature,
    {
        TranscribePayload::new(converted.bytes, AudioFormat::Wav, Some(self.model), self.temperature)
    }
}

} // verus!
