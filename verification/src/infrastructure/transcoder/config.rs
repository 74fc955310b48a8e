use vstd::prelude::*;

use crate::config::AudioConfig;

verus! {

/// Sample rates and bitrates the transcoder encodes with.
#[derive(Debug, Clone, Copy, PartialEq, Eq, Structural)]
pub struct TranscoderConfig {
    pub stt_sample_rate: u32,
    pub aac_bitrate_bps: u32,
    pub mp3_bitrate_bps: u32,
    pub opus_bitrate_bps: u32,
    pub pcm_sample_rate: u32,
}

impl TranscoderConfig {
    pub fn new(
        stt_sample_rate: u32,
        aac_bitrate_bps: u32,
        mp3_bitrate_bps: u32,
        opus_bitrate_bps: u32,
        pcm_sample_rate: u32,
    ) -> (c: Self)
        ensures
            c.stt_sample_rate == stt_sample_rate,
            c.aac_bitrate_bps == aac_bitrate_bps,
            c.mp3_bitrate_bps == mp3_bitrate_bps,
            c.opus_bitrate_bps == opus_bitrate_bps,
            c.pcm_sample_rate == pcm_sample_rate,
    {
        TranscoderConfig {
            stt_sample_rate,
            aac_bitrate_bps,
            mp3_bitrate_bps,
            opus_bitrate_bps,
            pcm_sample_rate,
        }
    }

    pub fn stt_sample_rate(&self) -> (r: u32)
        ensures
            r == self.stt_sample_rate,
    {
        self.stt_sample_rate
    }

    pub fn aac_bitrate_bps(&self) -> (r: u32)
        ensures
            r == self.aac_bitrate_bps,
    {
        self.aac_bitrate_bps
    }

    pub fn mp3_bitrate_bps(&self) -> (r: u32)
        ensures
            r == self.mp3_bitrate_bps,
    {
        self.mp3_bitrate_bps
    }

    pub fn opus_bitrate_bps(&self) -> (r: u32)
        ensures
            r == self.opus_bitrate_bps,
    {
        self.opus_bitrate_bps
    }

    pub fn pcm_sample_rate(&self) -> (r: u32)
        ensures
            r == self.pcm_sample_rate,
    {
        self.pcm_sample_rate
    }
}

/// The transcoder settings carried over from the audio settings.
pub open spec fn transcoder_config_of(cfg: AudioConfig) -> TranscoderConfig {
    TranscoderConfig {
        stt_sample_rate: cfg.stt_sample_rate,
        aac_bitrate_bps: cfg.aac_bitrate_bps,
        mp3_bitrate_bps: cfg.mp3_bitrate_bps,
        opus_bitrate_bps: cfg.opus_bitrate_bps,
        pcm_sample_rate: cfg.pcm_sample_rate,
    }
}

impl<'a> From<&'a AudioConfig> for TranscoderConfig {
    fn from(cfg: &'a AudioConfig) -> (c: Self) {
        TranscoderConfig {
            stt_sample_rate: cfg.stt_sample_rate,
            aac_bitrate_bps: cfg.aac_bitrate_bps,
            mp3_bitrate_bps: cfg.mp3_bitrate_bps,
            opus_bitrate_bps: cfg.opus_bitrate_bps,
            pcm_sample_rate: cfg.pcm_sample_rate,
        }
    }
}

impl<'a> vstd::std_specs::convert::FromSpecImpl<&'a AudioConfig> for TranscoderConfig {
    open spec fn obeys_from_spec() -> bool {
        true
    }

    open spec fn from_spec(cfg: &'a AudioConfig) -> Self {
        transcoder_config_of(*cfg)
    }
}

} // verus!
