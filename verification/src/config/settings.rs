//! The service's settings, as plain values.
//!
//! Addresses and URLs are held as their text; the program that loads the
//! settings checks their syntax before it builds these values.
use vstd::prelude::*;

verus! {

/// All settings of the service.
pub struct Settings {
    pub server: ServerConfig,
    pub provider: OpenRouterConfig,
    pub audio: AudioConfig,
    pub logging: LoggingConfig,
}

/// Where the HTTP server listens.
pub struct ServerConfig {
    /// The IP address, in its textual form.
    pub host: String,
    pub port: u16,
}

/// How the upstream provider is reached.
pub struct OpenRouterConfig {
    /// The base URL, in its serialized form.
    pub base_url: String,
    pub api_key: String,
    pub default_transcription_model: String,
    pub default_speech_model: String,
    pub request_timeout_secs: u64,
    pub app_name: Option<String>,
    /// The referer URL, in its serialized form.
    pub app_referer: Option<String>,
}

/// The log filter directive.
pub struct LoggingConfig {
    pub filter: String,
}

/// Sample rates and bitrates used when audio is re-encoded.
#[derive(Debug, Clone, Copy, PartialEq, Eq, Structural)]
pub struct AudioConfig {
    pub stt_sample_rate: u32,
    pub aac_bitrate_bps: u32,
    pub mp3_bitrate_bps: u32,
    pub opus_bitrate_bps: u32,
    pub pcm_sample_rate: u32,
}

impl Settings {
    pub fn server(&self) -> (r: &ServerConfig)
        ensures
            r == &self.server,
    {
        &self.server
    }

    pub fn provider(&self) -> (r: &OpenRouterConfig)
        ensures
            r == &self.provider,
    {
        &self.provider
    }

    pub fn audio(&self) -> (r: &AudioConfig)
        ensures
            r == &self.audio,
    {
        &self.audio
    }

    pub fn logging(&self) -> (r: &LoggingConfig)
        ensures
            r == &self.logging,
    {
        &self.logging
    }
}

impl ServerConfig {
    pub fn host(&self) -> (r: &str)
        ensures
            r@ == self.host@,
    {
        self.host.as_str()
    }

    pub fn port(&self) -> (r: u16)
        ensures
            r == self.port,
    {
        self.port
    }
}

impl OpenRouterConfig {
    pub fn base_url(&self) -> (r: &str)
        ensures
            r@ == self.base_url@,
    {
        self.base_url.as_str()
    }

    pub fn api_key(&self) -> (r: &str)
        ensures
            r@ == self.api_key@,
    {
        self.api_key.as_str()
    }

    pub fn default_transcription_model(&self) -> (r: &str)
        ensures
            r@ == self.default_transcription_model@,
    {
        self.default_transcription_model.as_str()
    }

    pub fn default_speech_model(&self) -> (r: &str)
        ensures
            r@ == self.default_speech_model@,
    {
        self.default_speech_model.as_str()
    }

    pub fn request_timeout_secs(&self) -> (r: u64)
        ensures
            r == self.request_timeout_secs,
    {
        self.request_timeout_secs
    }

    pub fn app_name(&self) -> (r: &Option<String>)
        ensures
            r == &self.app_name,
    {
        &self.app_name
    }

    pub fn app_referer(&self) -> (r: &Option<String>)
        ensures
            r == &self.app_referer,
    {
        &self.app_referer
    }
}

impl LoggingConfig {
    pub fn filter(&self) -> (r: &str)
        ensures
            r@ == self.filter@,
    {
        self.filter.as_str()
    }
}

impl AudioConfig {
    pub fn stt_sample_rate(&self) -> (r: u32)
        ensures
            r == self.stt_sample_rate,
    {
        self.stt_sample_rate
    }

    pub fn aac_bitrate_bps(&self) -> (r: u32)
        ensures
            r == self.aac_bitrate_bps,
    {
        self.aac_bitrate_bps
    }

    pub fn mp3_bitrate_bps(&self) -> (r: u32)
        ensures
            r == self.mp3_bitrate_bps,
    {
        self.mp3_bitrate_bps
    }

    pub fn opus_bitrate_bps(&self) -> (r: u32)
        ensures
            r == self.opus_bitrate_bps,
    {
        self.opus_bitrate_bps
    }

    pub fn pcm_sample_rate(&self) -> (r: u32)
        ensures
            r == self.pcm_sample_rate,
    {
        self.pcm_sample_rate
    }
}

} // verus!
