//! The steps of answering a speech request.
//!
//! The provider always answers with raw PCM (signed 16-bit, 24 kHz, mono).
//! That audio is handed back as it is when PCM at 24 kHz is wanted, and is
//! re-encoded otherwise.
use vstd::prelude::*;

use super::dto::SpeechRequest;
use crate::config::{AudioConfig, Settings};
use crate::domain::audio::{AudioFormat, SourceAudio};
use crate::domain::SpeechPayload;
use crate::infrastructure::openrouter::SynthesisedSpeech;

verus! {

/// Sample rate of the PCM audio the provider returns.
pub const PROVIDER_PCM_SAMPLE_RATE: u32 = 24_000u32;

/// What happens to the synthesised audio.
#[derive(Debug, Clone, Copy, PartialEq, Eq, Structural)]
pub enum SpeechOutput {
    /// It is returned unchanged.
    PassThrough,
    /// It is re-encoded to the given format.
    Transcode(AudioFormat),
}

/// The plan for a speech request: what to synthesise, and what to do with it.
pub struct SpeechPlan {
    pub payload: SpeechPayload,
    pub output: SpeechOutput,
}

/// The next step once speech has been synthesised.
pub enum SpeechStep {
    /// Answer with this audio.
    Done(SourceAudio),
    /// Convert this audio to the format, then answer with the result.
    Convert(SourceAudio, AudioFormat),
}

/// Decides the speech pipeline from the audio settings.
#[derive(Debug, Clone, Copy, PartialEq, Eq, Structural)]
pub struct SpeechService {
    pub audio_cfg: AudioConfig,
}

/// The synthesised audio is passed through exactly when PCM is wanted and
/// the configured PCM sample rate is the provider's.
pub open spec fn speech_output_for(format: AudioFormat, cfg: AudioConfig) -> SpeechOutput {
    if format == AudioFormat::Pcm && cfg.pcm_sample_rate == PROVIDER_PCM_SAMPLE_RATE {
        SpeechOutput::PassThrough
    } else {
        SpeechOutput::Transcode(format)
    }
}

impl SpeechService {
    /// The service for the application's settings; it reads the audio settings.
    pub fn from_state(settings: &Settings) -> (s: Self)
        ensures
            s.audio_cfg == settings.audio,
    {
        SpeechService { audio_cfg: settings.audio }
    }

    /// What happens to the synthesised audio for a response in `format`.
    pub fn output_for(&self, format: AudioFormat) -> (o: SpeechOutput)
        ensures
            o == speech_output_for(format, self.audio_cfg),
    {
        if format == AudioFormat::Pcm && self.audio_cfg.pcm_sample_rate == PROVIDER_PCM_SAMPLE_RATE {
            SpeechOutput::PassThrough
        } else {
            SpeechOutput::Transcode(format)
        }
    }

    /// Plans a validated request: the text, voice, model and speed go to the
    /// provider unchanged.
    pub fn plan(&self, req: SpeechRequest) -> (p: SpeechPlan)
        ensures
            p.payload.model == Some(req.model),
            p.payload.input == req.input,
            p.payload.voice == req.voice,
            p.payload.speed == req.speed,
            p.output == speech_output_for(req.response_format, self.audio_cfg),
    {
        let output = self.output_for(req.response_format);
        let payload = SpeechPayload::new(Some(req.model), req.input, req.voice, req.speed);
        SpeechPlan { payload, output }
    }

    /// The step after synthesis: answer with the PCM as it is, or convert it.
    pub fn after_synthesis(&self, output: SpeechOutput, synth: SynthesisedSpeech) -> (s: SpeechStep)
        ensures
            match output {
                SpeechOutput::PassThrough => s matches SpeechStep::Done(a) && a.bytes@
                    == synth.bytes@ && a.format == AudioFormat::Pcm,
                SpeechOutput::Transcode(f) => s matches SpeechStep::Convert(a, g) && a.bytes@
                    == synth.bytes@ && a.format == AudioFormat::Pcm && g == f,
            },
    {
        let audio = synth.into_source();
        match output {
            SpeechOutput::PassThrough => SpeechStep::Done(audio),
            SpeechOutput::Transcode(f) => SpeechStep::Convert(audio, f),
        }
    }
}

/// A request for PCM is answered without re-encoding exactly when the
/// configured PCM sample rate is 24 kHz; every other request is re-encoded
/// to the format it asked for.
pub proof fn lemma_pass_through_only_for_native_pcm(format: AudioFormat, cfg: AudioConfig)
    ensures
        speech_output_for(format, cfg) == SpeechOutput::PassThrough <==> (format
            == AudioFormat::Pcm && cfg.pcm_sample_rate == 24_000),
        speech_output_for(format, cfg) != SpeechOutput::PassThrough ==> speech_output_for(
            format,
            cfg,
        ) == SpeechOutput::Transcode(format),
{
}

} // verus!
