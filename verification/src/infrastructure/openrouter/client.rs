//! Framing of provider calls and reading of their answers.
//!
//! The program performs the HTTP exchange; this module decides what is sent
//! (URL, headers, body) and what an answer's status means.
use vstd::prelude::*;

use super::dto::{
    optional_usage_of, convert_usage, ProviderInputAudio, ProviderSpeechRequest,
    ProviderTranscribeRequest, ProviderTranscribeResponse,
};
use super::encoding::{base64_encoding, base64_len, base64_standard};
use super::endpoint::{append_path_segments, url_with_path_segments, MAX_URL_CHARS};
use crate::config::OpenRouterConfig;
use crate::domain::audio::format::format_name;
use crate::domain::audio::{AudioFormat, SourceAudio};
use crate::domain::error::{error_kind, error_status, AppError, AppErrorView};
use crate::domain::text::{concat, decimal, decimal_string};
use crate::domain::{SpeechPayload, TranscribePayload, Usage};

verus! {

/// What the provider is asked to transcribe.
pub struct TranscriptionInput {
    pub audio_bytes: Vec<u8>,
    pub format: AudioFormat,
    pub model: String,
    /// A binary32 temperature, as its bit pattern.
    pub temperature: Option<u32>,
}

/// A transcript as the provider returned it.
pub struct TranscriptionOutput {
    pub text: String,
    pub usage: Option<Usage>,
}

/// What the provider is asked to speak.
pub struct SpeechSynthRequest {
    pub model: String,
    pub input: String,
    pub voice: String,
    /// A binary32 speed, as its bit pattern.
    pub speed: Option<u32>,
}

/// Speech as the provider returned it: raw PCM, signed 16-bit little-endian,
/// 24 kHz, mono.
pub struct SynthesisedSpeech {
    pub bytes: Vec<u8>,
}

/// Longest base URL, in characters, that the client frames calls with: the
/// endpoint path it appends must keep the whole within `MAX_URL_CHARS`.
pub const MAX_BASE_URL_CHARS: usize = 0x007F_0000usize;

/// The provider's address, credentials and defaults.
pub struct OpenRouterClient {
    pub base_url: String,
    pub api_key: String,
    pub default_transcription_model: String,
    pub default_speech_model: String,
    pub app_name: Option<String>,
    pub app_referer: Option<String>,
    pub timeout_secs: u64,
}

/// Collects what an [`OpenRouterClient`] is built from.
pub struct OpenRouterClientBuilder {
    pub base_url: Option<String>,
    pub api_key: Option<String>,
    pub default_transcription_model: Option<String>,
    pub default_speech_model: Option<String>,
    pub timeout_secs: Option<u64>,
    pub app_name: Option<String>,
    pub app_referer: Option<String>,
}

/// Why a client could not be built.
#[derive(Debug, Clone, Copy, PartialEq, Eq, Structural)]
pub enum ClientBuildError {
    MissingApiKey,
}

/// A call to make: where to, with which headers and which JSON body.
pub struct ProviderCall<B> {
    pub url: String,
    pub headers: Vec<(String, String)>,
    pub body: B,
}

/// What an answer's status says.
#[derive(Debug, Clone, Copy, PartialEq, Eq, Structural)]
pub enum ResponseClass {
    /// 2xx: the body holds the result.
    Success,
    /// 401.
    Unauthorized,
    /// 429.
    RateLimited,
    /// Any other status: the body may describe the error.
    Failed,
}

/// A failed provider call.
pub enum ProviderError {
    /// The base URL cannot take path segments.
    InvalidBaseUrl,
    /// The provider answered 401.
    Unauthorized,
    /// The provider answered 429.
    RateLimited,
    /// The provider answered another error status.
    Upstream { status: u16, message: String },
    /// The exchange itself failed, or its answer could not be read.
    Transport(String),
}

/// The model used when the client names none.
pub open spec fn default_transcription_model_name() -> Seq<char> {
    "openai/whisper-large-v3"@
}

/// The speech model used when the client names none.
pub open spec fn default_speech_model_name() -> Seq<char> {
    "google/gemini-3.1-flash-tts-preview"@
}

/// The headers every call carries: the bearer token, then the optional
/// application title and referer.
pub open spec fn provider_headers(
    api_key: Seq<char>,
    app_name: Option<Seq<char>>,
    app_referer: Option<Seq<char>>,
) -> Seq<(Seq<char>, Seq<char>)> {
    seq![("Authorization"@, "Bearer "@ + api_key)] + match app_name {
        Some(n) => seq![("X-Title"@, n)],
        None => Seq::empty(),
    } + match app_referer {
        Some(r) => seq![("HTTP-Referer"@, r)],
        None => Seq::empty(),
    }
}

/// The views of an optional string.
pub open spec fn opt_view(s: Option<String>) -> Option<Seq<char>> {
    match s {
        Some(s) => Some(s@),
        None => None,
    }
}

/// The views of a list of headers.
pub open spec fn header_views(h: Seq<(String, String)>) -> Seq<(Seq<char>, Seq<char>)> {
    h.map_values(|p: (String, String)| (p.0@, p.1@))
}

/// The class of an answer's status.
pub open spec fn status_class(status: u16) -> ResponseClass {
    if 200 <= status && status <= 299 {
        ResponseClass::Success
    } else if status == 401 {
        ResponseClass::Unauthorized
    } else if status == 429 {
        ResponseClass::RateLimited
    } else {
        ResponseClass::Failed
    }
}

/// The text of a provider failure.
pub open spec fn provider_error_message(e: ProviderError) -> Seq<char> {
    match e {
        ProviderError::InvalidBaseUrl => "failed to set path segments"@,
        ProviderError::Unauthorized => "provider returned unauthorized"@,
        ProviderError::RateLimited => "provider returned rate limit exceeded"@,
        ProviderError::Upstream { status, message } => "upstream "@ + decimal(status as nat)
            + ": "@ + message@,
        ProviderError::Transport(m) => m@,
    }
}

/// The class of an answer's status: 2xx succeeds; 401 and 429 have their own
/// errors; any other status is a failure whose body is read.
pub fn classify_status(status: u16) -> (c: ResponseClass)
    ensures
        c == status_class(status),
{
    if 200 <= status && status <= 299 {
        ResponseClass::Success
    } else if status == 401 {
        ResponseClass::Unauthorized
    } else if status == 429 {
        ResponseClass::RateLimited
    } else {
        ResponseClass::Failed
    }
}

/// Only a 2xx answer is read as a result: every status outside 200..=299 is
/// a failure of some kind (401 and 429 are named, every other is an
/// upstream failure), and a failure always becomes a provider error.
pub proof fn lemma_only_2xx_succeeds(status: u16)
    ensures
        status_class(status) == ResponseClass::Success <==> 200 <= status && status <= 299,
        status == 401 ==> status_class(status) == ResponseClass::Unauthorized,
        status == 429 ==> status_class(status) == ResponseClass::RateLimited,
        !(200 <= status && status <= 299) && status != 401 && status != 429 ==> status_class(status)
            == ResponseClass::Failed,
{
}

/// The failure an error answer stands for, given its status, its body and
/// the message in the body when the body is a provider error document.
pub fn response_failure(status: u16, body: String, parsed_message: Option<String>) -> (e:
    ProviderError)
    requires
        status_class(status) != ResponseClass::Success,
    ensures
        status_class(status) == ResponseClass::Unauthorized ==> e is Unauthorized,
        status_class(status) == ResponseClass::RateLimited ==> e is RateLimited,
        status_class(status) == ResponseClass::Failed ==> (e matches ProviderError::Upstream {
            status: s,
            message,
        } && s == status && message@ == match parsed_message {
            Some(m) => m@,
            None => body@,
        }),
{
    match classify_status(status) {
        ResponseClass::Unauthorized => ProviderError::Unauthorized,
        ResponseClass::RateLimited => ProviderError::RateLimited,
        _ => {
            let message = match parsed_message {
                Some(m) => m,
                None => body,
            };
            ProviderError::Upstream { status, message }
        },
    }
}

impl ProviderError {
    pub fn message(&self) -> (m: String)
        ensures
            m@ == provider_error_message(*self),
    {
        match self {
            ProviderError::InvalidBaseUrl => String::from_str("failed to set path segments"),
            ProviderError::Unauthorized => String::from_str("provider returned unauthorized"),
            ProviderError::RateLimited => String::from_str("provider returned rate limit exceeded"),
            ProviderError::Upstream { status, message } => {
                let code = decimal_string(*status as u64);
                let mut m = concat("upstream ", code.as_str());
                m.append(": ");
                m.append(message.as_str());
                m
            },
            ProviderError::Transport(m) => m.clone(),
        }
    }

    /// A failed call is answered as an internal error carrying its text.
    pub fn into_app_error(self) -> (e: AppError)
        ensures
            e@ == AppErrorView::Internal(provider_error_message(self)),
    {
        AppError::Internal(self.message())
    }
}

impl SynthesisedSpeech {
    /// The synthesised speech as audio: it is always PCM.
    pub fn into_source(self) -> (a: SourceAudio)
        ensures
            a.bytes@ == self.bytes@,
            a.format == AudioFormat::Pcm,
    {
        SourceAudio::new(self.bytes, AudioFormat::Pcm)
    }
}

impl From<ProviderTranscribeResponse> for TranscriptionOutput {
    fn from(val: ProviderTranscribeResponse) -> (o: Self) {
        TranscriptionOutput { text: val.text, usage: convert_usage(val.usage) }
    }
}

impl vstd::std_specs::convert::FromSpecImpl<ProviderTranscribeResponse> for TranscriptionOutput {
    open spec fn obeys_from_spec() -> bool {
        true
    }

    open spec fn from_spec(val: ProviderTranscribeResponse) -> Self {
        TranscriptionOutput { text: val.text, usage: optional_usage_of(val.usage) }
    }
}

fn clone_text(value: &Option<String>) -> (r: Option<String>)
    ensures
        r == *value,
{
    match value {
        Some(s) => Some(s.clone()),
        None => None,
    }
}

fn header(name: &str, value: &str) -> (h: (String, String))
    ensures
        h.0@ == name@,
        h.1@ == value@,
{
    (String::from_str(name), String::from_str(value))
}

impl OpenRouterClient {
    pub fn builder() -> (b: OpenRouterClientBuilder)
        ensures
            b.base_url is None,
            b.api_key is None,
            b.default_transcription_model is None,
            b.default_speech_model is None,
            b.timeout_secs is None,
            b.app_name is None,
            b.app_referer is None,
    {
        OpenRouterClientBuilder::default()
    }

    /// Builds the client from the provider settings: each setting is handed
    /// to the builder, and the build cannot fail, the API key being set.
    pub fn from_config(cfg: &OpenRouterConfig) -> (r: Result<OpenRouterClient, ClientBuildError>)
        ensures
            r matches Ok(c) && {
                &&& c.base_url@ == cfg.base_url@
                &&& c.api_key@ == cfg.api_key@
                &&& c.default_transcription_model@ == cfg.default_transcription_model@
                &&& c.default_speech_model@ == cfg.default_speech_model@
                &&& c.timeout_secs == cfg.request_timeout_secs
                &&& c.app_name == cfg.app_name
                &&& c.app_referer == cfg.app_referer
            },
    {
        OpenRouterClient::builder()
            .base_url(cfg.base_url.clone())
            .api_key(cfg.api_key.clone())
            .default_transcription_model(cfg.default_transcription_model.clone())
            .default_speech_model(cfg.default_speech_model.clone())
            .timeout_secs(cfg.request_timeout_secs)
            .app_referer(clone_text(&cfg.app_referer))
            .app_name(clone_text(&cfg.app_name))
            .build()
    }

    pub fn default_transcription_model(&self) -> (r: &str)
        ensures
            r@ == self.default_transcription_model@,
    {
        self.default_transcription_model.as_str()
    }

    pub fn default_speech_model(&self) -> (r: &str)
        ensures
            r@ == self.default_speech_model@,
    {
        self.default_speech_model.as_str()
    }

    /// The headers of every call.
    pub fn headers(&self) -> (h: Vec<(String, String)>)
        ensures
            header_views(h@) == provider_headers(
                self.api_key@,
                opt_view(self.app_name),
                opt_view(self.app_referer),
            ),
    {
        let mut h: Vec<(String, String)> = Vec::new();
        let bearer = concat("Bearer ", self.api_key.as_str());
        h.push(header("Authorization", bearer.as_str()));
        let ghost first = header_views(h@);
        assert(first =~= seq![("Authorization"@, "Bearer "@ + self.api_key@)]);
        match &self.app_name {
            Some(name) => {
                h.push(header("X-Title", name.as_str()));
            },
            None => {},
        }
        let ghost second = header_views(h@);
        assert(second =~= first + match opt_view(self.app_name) {
            Some(n) => seq![("X-Title"@, n)],
            None => Seq::<(Seq<char>, Seq<char>)>::empty(),
        });
        match &self.app_referer {
            Some(referer) => {
                h.push(header("HTTP-Referer", referer.as_str()));
            },
            None => {},
        }
        assert(header_views(h@) =~= second + match opt_view(self.app_referer) {
            Some(r) => seq![("HTTP-Referer"@, r)],
            None => Seq::<(Seq<char>, Seq<char>)>::empty(),
        });
        h
    }

    /// What the provider is asked to transcribe: the payload, with the
    /// client's default model when the payload names none.
    pub fn transcription_input(&self, payload: TranscribePayload) -> (i: TranscriptionInput)
        ensures
            i.audio_bytes@ == payload.audio_bytes@,
            i.format == payload.format,
            i.model@ == match payload.model {
                Some(m) => m@,
                None => self.default_transcription_model@,
            },
            i.temperature == payload.temperature,
    {
        let model = match payload.model {
            Some(m) => m,
            None => self.default_transcription_model.clone(),
        };
        TranscriptionInput {
            audio_bytes: payload.audio_bytes,
            format: payload.format,
            model,
            temperature: payload.temperature,
        }
    }

    /// What the provider is asked to speak: the payload, with the client's
    /// default speech model when the payload names none.
    pub fn speech_request(&self, payload: SpeechPayload) -> (r: SpeechSynthRequest)
        ensures
            r.model@ == match payload.model {
                Some(m) => m@,
                None => self.default_speech_model@,
            },
            r.input == payload.input,
            r.voice == payload.voice,
            r.speed == payload.speed,
    {
        let model = match payload.model {
            Some(m) => m,
            None => self.default_speech_model.clone(),
        };
        SpeechSynthRequest { model, input: payload.input, voice: payload.voice, speed: payload.speed }
    }

    /// The transcription call: `POST {base}/audio/transcriptions` with the
    /// audio Base64-encoded and the name of its format.
    pub fn transcription_call(&self, input: TranscriptionInput) -> (r: Result<
        ProviderCall<ProviderTranscribeRequest>,
        ProviderError,
    >)
        requires
            base64_len(input.audio_bytes@.len()) <= usize::MAX,
            self.base_url@.len() <= MAX_BASE_URL_CHARS,
        ensures
            match r {
                Ok(call) => {
                    &&& url_with_path_segments(
                        self.base_url@,
                        seq!["audio"@, "transcriptions"@],
                    ) == Some(call.url@)
                    &&& header_views(call.headers@) == provider_headers(
                        self.api_key@,
                        opt_view(self.app_name),
                        opt_view(self.app_referer),
                    )
                    &&& call.body.model == input.model
                    &&& call.body.input_audio.data@ == base64_encoding(input.audio_bytes@)
                    &&& call.body.input_audio.format@ == format_name(input.format)
                    &&& call.body.temperature == input.temperature
                },
                Err(e) => url_with_path_segments(
                    self.base_url@,
                    seq!["audio"@, "transcriptions"@],
                ) is None && e is InvalidBaseUrl,
            },
    {
        let data = base64_standard(input.audio_bytes.as_slice());
        proof {
            reveal_strlit("audio");
            reveal_strlit("transcriptions");
        }
        let url = match append_path_segments(self.base_url.as_str(), "audio", "transcriptions") {
            Some(u) => u,
            None => {
                return Err(ProviderError::InvalidBaseUrl);
            },
        };
        let body = ProviderTranscribeRequest::new(
            input.model,
            ProviderInputAudio::new(data, input.format.as_str()),
            input.temperature,
        );
        Ok(ProviderCall { url, headers: self.headers(), body })
    }

    /// The speech call: `POST {base}/audio/speech`, always asking for raw PCM.
    pub fn speech_call(&self, request: SpeechSynthRequest) -> (r: Result<
        ProviderCall<ProviderSpeechRequest>,
        ProviderError,
    >)
        requires
            self.base_url@.len() <= MAX_BASE_URL_CHARS,
        ensures
            match r {
                Ok(call) => {
                    &&& url_with_path_segments(self.base_url@, seq!["audio"@, "speech"@]) == Some(
                        call.url@,
                    )
                    &&& header_views(call.headers@) == provider_headers(
                        self.api_key@,
                        opt_view(self.app_name),
                        opt_view(self.app_referer),
                    )
                    &&& call.body.model == request.model
                    &&& call.body.input == request.input
                    &&& call.body.voice == request.voice
                    &&& call.body.response_format@ == "pcm"@
                    &&& call.body.speed == request.speed
                },
                Err(e) => url_with_path_segments(self.base_url@, seq!["audio"@, "speech"@]) is None
                    && e is InvalidBaseUrl,
            },
    {
        proof {
            reveal_strlit("audio");
            reveal_strlit("speech");
        }
        let url = match append_path_segments(self.base_url.as_str(), "audio", "speech") {
            Some(u) => u,
            None => {
                return Err(ProviderError::InvalidBaseUrl);
            },
        };
        let body = ProviderSpeechRequest::new(
            request.model,
            request.input,
            request.voice,
            "pcm",
            request.speed,
        );
        Ok(ProviderCall { url, headers: self.headers(), body })
    }
}

impl Default for OpenRouterClientBuilder {
    fn default() -> (b: Self)
        ensures
            b.base_url is None,
            b.api_key is None,
            b.default_transcription_model is None,
            b.default_speech_model is None,
            b.timeout_secs is None,
            b.app_name is None,
            b.app_referer is None,
    {
        OpenRouterClientBuilder {
            base_url: None,
            api_key: None,
            default_transcription_model: None,
            default_speech_model: None,
            timeout_secs: None,
            app_name: None,
            app_referer: None,
        }
    }
}

impl OpenRouterClientBuilder {
    /// Sets the base URL, in its serialized form.
    pub fn base_url(self, value: String) -> (b: Self)
        ensures
            b.base_url == Some(value),
            b.api_key == self.api_key,
            b.default_transcription_model == self.default_transcription_model,
            b.default_speech_model == self.default_speech_model,
            b.timeout_secs == self.timeout_secs,
            b.app_name == self.app_name,
            b.app_referer == self.app_referer,
    {
        let mut this = self;
        this.base_url = Some(value);
        this
    }

    /// Sets the API key.
    pub fn api_key(self, value: String) -> (b: Self)
        ensures
            b.api_key == Some(value),
            b.base_url == self.base_url,
            b.default_transcription_model == self.default_transcription_model,
            b.default_speech_model == self.default_speech_model,
            b.timeout_secs == self.timeout_secs,
            b.app_name == self.app_name,
            b.app_referer == self.app_referer,
    {
        let mut this = self;
        this.api_key = Some(value);
        this
    }

    /// Sets the transcription model used when a request names none.
    pub fn default_transcription_model(self, value: String) -> (b: Self)
        ensures
            b.default_transcription_model == Some(value),
            b.base_url == self.base_url,
            b.api_key == self.api_key,
            b.default_speech_model == self.default_speech_model,
            b.timeout_secs == self.timeout_secs,
            b.app_name == self.app_name,
            b.app_referer == self.app_referer,
    {
        let mut this = self;
        this.default_transcription_model = Some(value);
        this
    }

    /// Sets the speech model used when a request names none.
    pub fn default_speech_model(self, value: String) -> (b: Self)
        ensures
            b.default_speech_model == Some(value),
            b.base_url == self.base_url,
            b.api_key == self.api_key,
            b.default_transcription_model == self.default_transcription_model,
            b.timeout_secs == self.timeout_secs,
            b.app_name == self.app_name,
            b.app_referer == self.app_referer,
    {
        let mut this = self;
        this.default_speech_model = Some(value);
        this
    }

    /// Sets the request timeout, in seconds.
    pub fn timeout_secs(self, secs: u64) -> (b: Self)
        ensures
            b.timeout_secs == Some(secs),
            b.base_url == self.base_url,
            b.api_key == self.api_key,
            b.default_transcription_model == self.default_transcription_model,
            b.default_speech_model == self.default_speech_model,
            b.app_name == self.app_name,
            b.app_referer == self.app_referer,
    {
        let mut this = self;
        this.timeout_secs = Some(secs);
        this
    }

    /// Sets (or clears) the application title sent as `X-Title`.
    pub fn app_name(self, value: Option<String>) -> (b: Self)
        ensures
            b.app_name == value,
            b.base_url == self.base_url,
            b.api_key == self.api_key,
            b.default_transcription_model == self.default_transcription_model,
            b.default_speech_model == self.default_speech_model,
            b.timeout_secs == self.timeout_secs,
            b.app_referer == self.app_referer,
    {
        let mut this = self;
        this.app_name = value;
        this
    }

    /// Sets (or clears) the referer URL sent as `HTTP-Referer`.
    pub fn app_referer(self, value: Option<String>) -> (b: Self)
        ensures
            b.app_referer == value,
            b.base_url == self.base_url,
            b.api_key == self.api_key,
            b.default_transcription_model == self.default_transcription_model,
            b.default_speech_model == self.default_speech_model,
            b.timeout_secs == self.timeout_secs,
            b.app_name == self.app_name,
    {
        let mut this = self;
        this.app_referer = value;
        this
    }

    /// Builds the client. The base URL must have been set; the API key is
    /// required; the models default to `openai/whisper-large-v3` and
    /// `google/gemini-3.1-flash-tts-preview`, the timeout to 60 seconds.
    pub fn build(self) -> (r: Result<OpenRouterClient, ClientBuildError>)
        requires
            self.base_url is Some,
        ensures
            match r {
                Ok(c) => {
                    &&& self.api_key matches Some(k) && c.api_key == k
                    &&& c.base_url == self.base_url->0
                    &&& c.default_transcription_model@ == match self.default_transcription_model {
                        Some(m) => m@,
                        None => default_transcription_model_name(),
                    }
                    &&& c.default_speech_model@ == match self.default_speech_model {
                        Some(m) => m@,
                        None => default_speech_model_name(),
                    }
                    &&& c.timeout_secs == match self.timeout_secs {
                        Some(t) => t,
                        None => 60,
                    }
                    &&& c.app_name == self.app_name
                    &&& c.app_referer == self.app_referer
                },
                Err(e) => self.api_key is None && e == ClientBuildError::MissingApiKey,
            },
    {
        let timeout_secs = match self.timeout_secs {
            Some(t) => t,
            None => 60,
        };
        let base_url = match self.base_url {
            Some(u) => u,
            None => String::new(),
        };
        let api_key = match self.api_key {
            Some(k) => k,
            None => {
                return Err(ClientBuildError::MissingApiKey);
            },
        };
        let default_transcription_model = match self.default_transcription_model {
            Some(m) => m,
            None => String::from_str("openai/whisper-large-v3"),
        };
        let default_speech_model = match self.default_speech_model {
            Some(m) => m,
            None => String::from_str("google/gemini-3.1-flash-tts-preview"),
        };
        Ok(
            OpenRouterClient {
                base_url,
                api_key,
                default_transcription_model,
                default_speech_model,
                app_name: self.app_name,
                app_referer: self.app_referer,
                timeout_secs,
            },
        )
    }
}

impl ClientBuildError {
    pub fn message(&self) -> (m: &'static str)
        ensures
            m@ == "api_key is required"@,
    {
        "api_key is required"
    }
}

/// Every failed provider call is answered as a 500 `internal_error`,
/// whatever the provider said (401, 429, another status) or did.
pub proof fn lemma_provider_failures_are_internal(failure: ProviderError, answer: AppError)
    requires
        answer@ == AppErrorView::Internal(provider_error_message(failure)),
    ensures
        error_status(answer) == 500,
        error_kind(answer) == "internal_error"@,
{
}

} // verus!
