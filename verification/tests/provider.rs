use proxid::config::OpenRouterConfig;
use proxid::domain::audio::AudioFormat;
use proxid::domain::{SpeechPayload, TranscribePayload, TranscriptPayload, Usage};
use proxid::infrastructure::openrouter::client::{classify_status, response_failure, ClientBuildError};
use proxid::infrastructure::openrouter::dto::{ProviderTranscribeResponse, ProviderUsage};
use proxid::infrastructure::openrouter::{
    OpenRouterClient, ProviderError, ResponseClass, TranscriptionOutput,
};

fn client(base: &str) -> OpenRouterClient {
    OpenRouterClient::builder()
        .base_url(base.to_string())
        .api_key("sk-test-key".to_string())
        .build()
        .unwrap()
}

#[test]
fn builder_defaults() {
    let c = client("https://api.example.com/");
    assert_eq!(c.default_transcription_model(), "openai/whisper-large-v3");
    assert_eq!(c.default_speech_model(), "google/gemini-3.1-flash-tts-preview");
    assert_eq!(c.timeout_secs, 60);
    let c = OpenRouterClient::builder()
        .base_url("https://x/".to_string())
        .api_key("k".to_string())
        .timeout_secs(5)
        .default_speech_model("test/tts-model".to_string())
        .default_transcription_model("test/stt".to_string())
        .app_name(Some("proxid".to_string()))
        .app_referer(Some("https://ref/".to_string()))
        .build()
        .unwrap();
    assert_eq!(c.timeout_secs, 5);
    assert_eq!(c.default_speech_model(), "test/tts-model");
    assert_eq!(c.default_transcription_model(), "test/stt");
}

#[test]
fn from_config_hands_every_setting_over() {
    let cfg = OpenRouterConfig {
        base_url: "https://openrouter.example/api/v1".to_string(),
        api_key: "sk-cfg".to_string(),
        default_transcription_model: "cfg/stt".to_string(),
        default_speech_model: "cfg/tts".to_string(),
        request_timeout_secs: 17,
        app_name: Some("proxid".to_string()),
        app_referer: None,
    };
    let c = OpenRouterClient::from_config(&cfg).ok().unwrap();
    assert_eq!(c.base_url, "https://openrouter.example/api/v1");
    assert_eq!(c.api_key, "sk-cfg");
    assert_eq!(c.default_transcription_model(), "cfg/stt");
    assert_eq!(c.default_speech_model(), "cfg/tts");
    assert_eq!(c.timeout_secs, 17);
    assert_eq!(c.app_name, Some("proxid".to_string()));
    assert_eq!(c.app_referer, None);
}

#[test]
fn builder_requires_api_key() {
    let r = OpenRouterClient::builder().base_url("https://x/".to_string()).build();
    match r {
        Err(e) => {
            assert_eq!(e, ClientBuildError::MissingApiKey);
            assert_eq!(e.message(), "api_key is required");
        }
        Ok(_) => panic!("api key is required"),
    }
}

#[test]
fn transcription_call_is_framed() {
    let c = client("https://api.example.com/api/v1");
    let input = c.transcription_input(TranscribePayload::new(b"hello".to_vec(), AudioFormat::Wav, None, None));
    assert_eq!(input.model, "openai/whisper-large-v3");
    let call = c.transcription_call(input).ok().unwrap();
    assert_eq!(call.url, "https://api.example.com/api/v1/audio/transcriptions");
    assert_eq!(call.headers, vec![("Authorization".to_string(), "Bearer sk-test-key".to_string())]);
    assert_eq!(call.body.model, "openai/whisper-large-v3");
    assert_eq!(call.body.input_audio.data, "aGVsbG8=");
    assert_eq!(call.body.input_audio.format, "wav");
    assert!(call.body.temperature.is_none());
}

#[test]
fn base64_of_every_remainder() {
    let c = client("https://api.example.com/");
    for (bytes, expected) in [
        (&b""[..], ""),
        (&b"f"[..], "Zg=="),
        (&b"fo"[..], "Zm8="),
        (&b"foo"[..], "Zm9v"),
        (&b"foob"[..], "Zm9vYg=="),
        (&b"fooba"[..], "Zm9vYmE="),
        (&b"foobar"[..], "Zm9vYmFy"),
        (&[0xfbu8, 0xff][..], "+/8="),
    ] {
        let input = c.transcription_input(TranscribePayload::new(
            bytes.to_vec(),
            AudioFormat::Mp3,
            Some("m".to_string()),
            Some(0.2f32.to_bits()),
        ));
        let call = c.transcription_call(input).ok().unwrap();
        assert_eq!(call.body.input_audio.data, expected);
        assert_eq!(call.body.input_audio.format, "mp3");
        assert_eq!(call.body.model, "m");
        assert_eq!(call.body.temperature.map(f32::from_bits), Some(0.2));
    }
}

#[test]
fn speech_call_is_framed() {
    let c = OpenRouterClient::builder()
        .base_url("http://127.0.0.1:1234/".to_string())
        .api_key("sk-test-key".to_string())
        .default_speech_model("test/tts-model".to_string())
        .app_name(Some("proxid".to_string()))
        .app_referer(Some("https://example.org/".to_string()))
        .build()
        .unwrap();
    let req = c.speech_request(SpeechPayload::new(None, "hello".to_string(), "alloy".to_string(), None));
    assert_eq!(req.model, "test/tts-model");
    let call = c.speech_call(req).ok().unwrap();
    assert_eq!(call.url, "http://127.0.0.1:1234/audio/speech");
    assert_eq!(
        call.headers,
        vec![
            ("Authorization".to_string(), "Bearer sk-test-key".to_string()),
            ("X-Title".to_string(), "proxid".to_string()),
            ("HTTP-Referer".to_string(), "https://example.org/".to_string()),
        ]
    );
    assert_eq!(call.body.response_format, "pcm");
    assert_eq!(call.body.input, "hello");
    assert_eq!(call.body.voice, "alloy");
}

#[test]
fn base_url_that_cannot_take_segments() {
    let c = client("mailto:someone@example.com");
    let req = c.speech_request(SpeechPayload::new(Some("m".to_string()), "a".to_string(), "b".to_string(), None));
    match c.speech_call(req) {
        Err(e) => {
            assert!(matches!(e, ProviderError::InvalidBaseUrl));
            assert_eq!(e.message(), "failed to set path segments");
        }
        Ok(_) => panic!("mailto URLs cannot be a base"),
    }
    let c = client("not a url");
    assert!(c.speech_call(c.speech_request(SpeechPayload::new(None, "a".to_string(), "b".to_string(), None))).is_err());
}

#[test]
fn status_classes() {
    assert_eq!(classify_status(200), ResponseClass::Success);
    assert_eq!(classify_status(204), ResponseClass::Success);
    assert_eq!(classify_status(299), ResponseClass::Success);
    assert_eq!(classify_status(300), ResponseClass::Failed);
    assert_eq!(classify_status(401), ResponseClass::Unauthorized);
    assert_eq!(classify_status(429), ResponseClass::RateLimited);
    assert_eq!(classify_status(500), ResponseClass::Failed);
    assert_eq!(classify_status(199), ResponseClass::Failed);
}

#[test]
fn upstream_failures_become_internal_errors() {
    let e = response_failure(401, String::new(), None);
    assert_eq!(e.message(), "provider returned unauthorized");
    let app = e.into_app_error();
    assert_eq!(app.status_code(), 500);
    assert_eq!(app.error_type(), "internal_error");

    let e = response_failure(429, String::new(), None);
    assert_eq!(e.into_app_error().message(), "internal error: provider returned rate limit exceeded");

    let body = r#"{"error":{"code":500,"message":"Internal Server Error"}}"#.to_string();
    let e = response_failure(500, body, Some("Internal Server Error".to_string()));
    assert_eq!(e.message(), "upstream 500: Internal Server Error");
    assert_eq!(e.into_app_error().status_code(), 500);

    let e = response_failure(502, "bad gateway".to_string(), None);
    assert_eq!(e.message(), "upstream 502: bad gateway");
    assert_eq!(ProviderError::Transport("timed out".to_string()).into_app_error().message(), "internal error: timed out");
}

#[test]
fn transcription_answers_convert() {
    let resp = ProviderTranscribeResponse {
        text: "hello world".to_string(),
        usage: Some(ProviderUsage {
            seconds: Some(3.5f64.to_bits()),
            cost: Some(0.001f64.to_bits()),
            input_tokens: None,
            output_tokens: Some(7),
        }),
    };
    let p = TranscriptPayload::from(resp);
    assert_eq!(p.text, "hello world");
    let u = p.usage.unwrap();
    assert_eq!(u.seconds().map(f64::from_bits), Some(3.5));
    assert_eq!(u.cost().map(f64::from_bits), Some(0.001));
    assert_eq!(u.input_tokens(), None);
    assert_eq!(u.output_tokens(), Some(7));
    let o = TranscriptionOutput::from(ProviderTranscribeResponse { text: "x".to_string(), usage: None });
    assert_eq!(o.text, "x");
    assert!(o.usage.is_none());
    assert_eq!(Usage::default(), Usage::new(None, None, None, None));
}
