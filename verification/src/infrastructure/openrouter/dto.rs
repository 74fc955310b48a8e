//! The bodies exchanged with the provider.
//!
//! Binary32 numbers (temperature, speed) are carried as their bit patterns,
//! binary64 numbers (seconds, cost) likewise; the program that writes and
//! reads JSON turns them back into numbers.
use vstd::prelude::*;

use crate::domain::{TranscriptPayload, Usage};

verus! {

/// The body of a transcription call.
pub struct ProviderTranscribeRequest {
    pub model: String,
    pub input_audio: ProviderInputAudio,
    pub temperature: Option<u32>,
}

/// Base64-encoded audio and the name of its format.
pub struct ProviderInputAudio {
    pub data: String,
    pub format: &'static str,
}

/// The body of a successful transcription answer.
pub struct ProviderTranscribeResponse {
    pub text: String,
    pub usage: Option<ProviderUsage>,
}

/// Usage figures as the provider reports them.
#[derive(Debug, Clone, Copy, PartialEq, Eq, Structural)]
pub struct ProviderUsage {
    pub seconds: Option<u64>,
    pub cost: Option<u64>,
    pub input_tokens: Option<u64>,
    pub output_tokens: Option<u64>,
}

/// The body of a speech synthesis call.
pub struct ProviderSpeechRequest {
    pub model: String,
    pub input: String,
    pub voice: String,
    pub response_format: &'static str,
    pub speed: Option<u32>,
}

impl ProviderTranscribeRequest {
    pub fn new(model: String, input_audio: ProviderInputAudio, temperature: Option<u32>) -> (r: Self)
        ensures
            r.model == model,
            r.input_audio == input_audio,
            r.temperature == temperature,
    {
        ProviderTranscribeRequest { model, input_audio, temperature }
    }
}

impl ProviderInputAudio {
    pub fn new(data: String, format: &'static str) -> (r: Self)
        ensures
            r.data == data,
            r.format == format,
    {
        ProviderInputAudio { data, format }
    }
}

impl ProviderSpeechRequest {
    pub fn new(
        model: String,
        input: String,
        voice: String,
        response_format: &'static str,
        speed: Option<u32>,
    ) -> (r: Self)
        ensures
            r.model == model,
            r.input == input,
            r.voice == voice,
            r.response_format == response_format,
            r.speed == speed,
    {
        ProviderSpeechRequest { model, input, voice, response_format, speed }
    }
}

/// The usage a provider report stands for.
pub open spec fn usage_of(u: ProviderUsage) -> Usage {
    Usage {
        seconds: u.seconds,
        cost: u.cost,
        input_tokens: u.input_tokens,
        output_tokens: u.output_tokens,
    }
}

/// The optional usage a provider report stands for.
pub open spec fn optional_usage_of(u: Option<ProviderUsage>) -> Option<Usage> {
    match u {
        Some(u) => Some(usage_of(u)),
        None => None,
    }
}

impl From<ProviderUsage> for Usage {
    fn from(val: ProviderUsage) -> (u: Self) {
        Usage::new(val.seconds, val.cost, val.input_tokens, val.output_tokens)
    }
}

impl vstd::std_specs::convert::FromSpecImpl<ProviderUsage> for Usage {
    open spec fn obeys_from_spec() -> bool {
        true
    }

    open spec fn from_spec(val: ProviderUsage) -> Self {
        usage_of(val)
    }
}

/// Converts optional provider usage.
pub fn convert_usage(u: Option<ProviderUsage>) -> (r: Option<Usage>)
    ensures
        r == optional_usage_of(u),
{
    match u {
        Some(u) => Some(Usage::from(u)),
        None => None,
    }
}

impl From<ProviderTranscribeResponse> for TranscriptPayload {
    fn from(val: ProviderTranscribeResponse) -> (p: Self) {
        TranscriptPayload { text: val.text, usage: convert_usage(val.usage) }
    }
}

impl vstd::std_specs::convert::FromSpecImpl<ProviderTranscribeResponse> for TranscriptPayload {
    open spec fn obeys_from_spec() -> bool {
        true
    }

    open spec fn from_spec(val: ProviderTranscribeResponse) -> Self {
        TranscriptPayload { text: val.text, usage: optional_usage_of(val.usage) }
    }
}

} // verus!
