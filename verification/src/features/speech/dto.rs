//! Validation of a text-to-speech request.
use vstd::prelude::*;

use crate::config::Settings;
use crate::domain::audio::format::{parse_format, speech_output};
use crate::domain::audio::{AudioFormat, OutputFormat};
use crate::domain::error::{AppError, AppErrorView, AppResult};
use crate::domain::text::concat;
use crate::infrastructure::transcoder::ffmpeg::{encode_spec, lemma_speech_formats_are_encodable};
use crate::infrastructure::transcoder::TranscoderConfig;

verus! {

/// Bit pattern of the binary32 number 0.25, the slowest speed accepted.
pub const SPEED_MIN_BITS: u32 = 0x3E80_0000u32;

/// Bit pattern of the binary32 number 4.0, the fastest speed accepted.
pub const SPEED_MAX_BITS: u32 = 0x4080_0000u32;

/// A requested speed: a binary32 number, carried as its bit pattern
/// (`f32::to_bits`), and its decimal rendering (`f32`'s `Display`), which
/// error messages quote.
pub struct Speed {
    pub bits: u32,
    pub shown: String,
}

/// The body of a speech request, as the client sent it.
pub struct SpeechRequestBody {
    pub model: Option<String>,
    pub input: String,
    pub voice: String,
    pub response_format: Option<String>,
    pub speed: Option<Speed>,
}

/// A validated speech request.
///
/// `speed` is a binary32 number carried as its bit pattern.
#[derive(Debug)]
pub struct SpeechRequest {
    pub model: String,
    pub input: String,
    pub voice: String,
    pub response_format: AudioFormat,
    pub speed: Option<u32>,
}

/// A speed is accepted when it lies in [0.25, 4.0].
///
/// For binary32 numbers with the sign bit clear, the order of the bit
/// patterns is the order of the numbers; negative numbers, NaNs and
/// infinities all have patterns outside this range. So the test on the bit
/// pattern holds exactly when `(0.25..=4.0).contains(&speed)` does.
pub open spec fn speed_accepted(bits: u32) -> bool {
    SPEED_MIN_BITS <= bits && bits <= SPEED_MAX_BITS
}

/// The format a request names, mp3 when it names none; `None` when the name
/// is not one of the known formats.
pub open spec fn named_format(response_format: Option<String>) -> Option<AudioFormat> {
    match response_format {
        None => Some(AudioFormat::Mp3),
        Some(t) => parse_format(t@),
    }
}

/// The outcome of validating a speech request body: the output format, or
/// the first failed check, in the order: a known format, speed, input,
/// voice, and last that speech can be produced in the format.
pub open spec fn speech_request_check(body: SpeechRequestBody) -> Result<AudioFormat, AppErrorView> {
    match named_format(body.response_format) {
        None => Err(AppErrorView::BadRequest("invalid response_format: "@ + body.response_format->0@)),
        Some(f) => if body.speed matches Some(s) && !speed_accepted(s.bits) {
            Err(
                AppErrorView::BadRequest(
                    "speed must be between 0.25 and 4.0, got "@ + body.speed->0.shown@,
                ),
            )
        } else if body.input@.len() == 0 {
            Err(AppErrorView::MissingField("input"@))
        } else if body.voice@.len() == 0 {
            Err(AppErrorView::MissingField("voice"@))
        } else if speech_output(f) is None {
            Err(AppErrorView::BadRequest("invalid response_format: "@ + body.response_format->0@))
        } else {
            Ok(f)
        },
    }
}

/// The bit pattern of an optional speed.
pub open spec fn speed_bits(speed: Option<Speed>) -> Option<u32> {
    match speed {
        Some(s) => Some(s.bits),
        None => None,
    }
}

impl SpeechRequest {
    pub fn new(
        model: String,
        input: String,
        voice: String,
        response_format: AudioFormat,
        speed: Option<u32>,
    ) -> (r: Self)
        ensures
            r.model == model,
            r.input == input,
            r.voice == voice,
            r.response_format == response_format,
            r.speed == speed,
    {
        SpeechRequest { model, input, voice, response_format, speed }
    }
}

impl SpeechRequestBody {
    pub fn new(
        model: Option<String>,
        input: String,
        voice: String,
        response_format: Option<String>,
        speed: Option<Speed>,
    ) -> (r: Self)
        ensures
            r.model == model,
            r.input == input,
            r.voice == voice,
            r.response_format == response_format,
            r.speed == speed,
    {
        SpeechRequestBody { model, input, voice, response_format, speed }
    }

    /// Validates the body. The model defaults to the configured speech model
    /// and the format to mp3; the format must be one speech is produced in,
    /// the speed must lie in [0.25, 4.0], and input and voice must not be
    /// empty.
    pub fn into_request(self, settings: &Settings) -> (r: AppResult<SpeechRequest>)
        ensures
            match r {
                Ok(req) => {
                    &&& speech_request_check(self) == Ok::<AudioFormat, AppErrorView>(
                        req.response_format,
                    )
                    &&& speech_output(req.response_format) is Some
                    &&& req.model@ == match self.model {
                        Some(m) => m@,
                        None => settings.provider.default_speech_model@,
                    }
                    &&& req.input@ == self.input@
                    &&& req.voice@ == self.voice@
                    &&& req.speed == speed_bits(self.speed)
                },
                Err(e) => speech_request_check(self) == Err::<AudioFormat, AppErrorView>(e@),
            },
    {
        let ghost body = self;
        let SpeechRequestBody { model, input, voice, response_format: named, speed } = self;
        let model = match model {
            Some(m) => m,
            None => settings.provider.default_speech_model.clone(),
        };
        let response_format = match &named {
            None => AudioFormat::Mp3,
            Some(fmt) => match AudioFormat::from_str(fmt.as_str()) {
                Ok(f) => f,
                Err(_) => {
                    return Err(
                        AppError::BadRequest(concat("invalid response_format: ", fmt.as_str())),
                    );
                },
            },
        };
        let bits = match speed {
            Some(s) => {
                if s.bits < SPEED_MIN_BITS || s.bits > SPEED_MAX_BITS {
                    return Err(
                        AppError::BadRequest(
                            concat("speed must be between 0.25 and 4.0, got ", s.shown.as_str()),
                        ),
                    );
                }
                Some(s.bits)
            },
            None => None,
        };
        if input.as_str().is_empty() {
            return Err(AppError::MissingField("input"));
        }
        if voice.as_str().is_empty() {
            return Err(AppError::MissingField("voice"));
        }
        if OutputFormat::for_speech(response_format).is_none() {
            let name = match &named {
                Some(fmt) => fmt.as_str(),
                None => "",
            };
            return Err(AppError::BadRequest(concat("invalid response_format: ", name)));
        }
        Ok(SpeechRequest::new(model, input, voice, response_format, bits))
    }
}

/// A speech request that passes validation asks for a format the transcoder
/// can produce, and a rejected one is answered 400, never 500.
pub proof fn lemma_speech_validation_outcomes(body: SpeechRequestBody, cfg: TranscoderConfig)
    ensures
        speech_request_check(body) matches Ok(f) ==> encode_spec(cfg, f) is Some,
        speech_request_check(body) matches Err(e) ==> (e is BadRequest || e is MissingField),
{
    if let Ok(f) = speech_request_check(body) {
        lemma_speech_formats_are_encodable(cfg, f);
    }
}

/// A request is accepted exactly as documented: when it names one of the six
/// speech formats (pcm, mp3, wav, flac, aac, opus, in any ASCII case) or
/// none (mp3), its speed, if any, is a number in [0.25, 4.0] (bit patterns
/// 0x3E80_0000 through 0x4080_0000), and its input and voice are not empty,
/// validation yields that format.
pub proof fn lemma_valid_speech_request_is_accepted(body: SpeechRequestBody, f: AudioFormat)
    requires
        (body.response_format is None && f == AudioFormat::Mp3) || (body.response_format matches Some(
            t,
        ) && parse_format(t@) == Some(f)),
        f is Pcm || f is Mp3 || f is Wav || f is Flac || f is Aac || f is Opus,
        body.speed matches Some(s) ==> 0x3E80_0000u32 <= s.bits && s.bits <= 0x4080_0000u32,
        body.input@.len() > 0,
        body.voice@.len() > 0,
    ensures
        speech_request_check(body) == Ok::<AudioFormat, AppErrorView>(f),
        speed_bits(body.speed) == match body.speed {
            Some(s) => Some(s.bits),
            None => None::<u32>,
        },
{
}

/// A speed outside [0.25, 4.0] (a bit pattern below 0x3E80_0000 or above
/// 0x4080_0000: negative numbers, NaNs and infinities among them) is refused
/// with a 400 that quotes it, whenever the format is a known one.
pub proof fn lemma_speed_out_of_range_is_refused(body: SpeechRequestBody, s: Speed)
    requires
        body.speed == Some(s),
        s.bits < 0x3E80_0000u32 || s.bits > 0x4080_0000u32,
        body.response_format matches Some(t) ==> parse_format(t@) is Some,
    ensures
        speech_request_check(body) == Err::<AudioFormat, AppErrorView>(
            AppErrorView::BadRequest("speed must be between 0.25 and 4.0, got "@ + s.shown@),
        ),
{
}

} // verus!
