use proxid::config::{AudioConfig, LoggingConfig, OpenRouterConfig, ServerConfig, Settings};
use proxid::domain::audio::AudioFormat;
use proxid::features::speech::dto::{Speed, SpeechRequestBody, SPEED_MAX_BITS, SPEED_MIN_BITS};
use proxid::features::speech::service::{SpeechOutput, SpeechService, SpeechStep};
use proxid::infrastructure::openrouter::SynthesisedSpeech;
use proxid::AppError;

fn test_settings() -> Settings {
    Settings {
        server: ServerConfig { host: "127.0.0.1".to_string(), port: 0 },
        provider: OpenRouterConfig {
            base_url: "https://example.com/".to_string(),
            api_key: "sk-test".to_string(),
            default_transcription_model: "test/stt".to_string(),
            default_speech_model: "test/tts".to_string(),
            request_timeout_secs: 5,
            app_name: None,
            app_referer: None,
        },
        audio: AudioConfig {
            stt_sample_rate: 16000,
            aac_bitrate_bps: 160000,
            mp3_bitrate_bps: 128000,
            opus_bitrate_bps: 64000,
            pcm_sample_rate: 24000,
        },
        logging: LoggingConfig { filter: "proxid=warn".to_string() },
    }
}

fn speed(v: f32) -> Speed {
    Speed { bits: v.to_bits(), shown: v.to_string() }
}

#[test]
fn into_request_valid_with_defaults() {
    let state = test_settings();
    let body = SpeechRequestBody::new(None, "hello".to_string(), "alloy".to_string(), None, None);
    let req = body.into_request(&state).unwrap();
    assert_eq!(req.model, "test/tts");
    assert_eq!(req.response_format, AudioFormat::Mp3);
    assert_eq!(req.input, "hello");
    assert_eq!(req.voice, "alloy");
    assert!(req.speed.is_none());
}

#[test]
fn into_request_invalid_format_returns_bad_request() {
    let state = test_settings();
    let body = SpeechRequestBody::new(
        None,
        "hello".to_string(),
        "alloy".to_string(),
        Some("xyz".to_string()),
        None,
    );
    let err = body.into_request(&state).unwrap_err();
    assert!(matches!(err, AppError::BadRequest(_)));
}

#[test]
fn into_request_speed_too_low_returns_bad_request() {
    let state = test_settings();
    let body =
        SpeechRequestBody::new(None, "hello".to_string(), "alloy".to_string(), None, Some(speed(0.1)));
    let err = body.into_request(&state).unwrap_err();
    assert!(matches!(err, AppError::BadRequest(_)));
}

#[test]
fn into_request_speed_too_high_returns_bad_request() {
    let state = test_settings();
    let body =
        SpeechRequestBody::new(None, "hello".to_string(), "alloy".to_string(), None, Some(speed(5.0)));
    let err = body.into_request(&state).unwrap_err();
    assert!(matches!(err, AppError::BadRequest(_)));
}

#[test]
fn into_request_speed_at_lower_bound_is_valid() {
    let state = test_settings();
    let body = SpeechRequestBody::new(
        None,
        "hello".to_string(),
        "alloy".to_string(),
        None,
        Some(speed(0.25)),
    );
    let req = body.into_request(&state).unwrap();
    assert_eq!(req.speed.map(f32::from_bits), Some(0.25));
}

#[test]
fn into_request_speed_at_upper_bound_is_valid() {
    let state = test_settings();
    let body =
        SpeechRequestBody::new(None, "hello".to_string(), "alloy".to_string(), None, Some(speed(4.0)));
    let req = body.into_request(&state).unwrap();
    assert_eq!(req.speed.map(f32::from_bits), Some(4.0));
}

#[test]
fn into_request_empty_voice_returns_missing_field() {
    let state = test_settings();
    let body = SpeechRequestBody::new(None, "hello".to_string(), String::new(), None, None);
    let err = body.into_request(&state).unwrap_err();
    assert!(matches!(err, AppError::MissingField("voice")));
}

#[test]
fn into_request_empty_input_returns_missing_field() {
    let state = test_settings();
    let body = SpeechRequestBody::new(None, String::new(), "alloy".to_string(), None, None);
    let err = body.into_request(&state).unwrap_err();
    assert!(matches!(err, AppError::MissingField("input")));
}

#[test]
fn speed_bounds_are_the_bit_patterns_of_quarter_and_four() {
    assert_eq!(SPEED_MIN_BITS, 0.25f32.to_bits());
    assert_eq!(SPEED_MAX_BITS, 4.0f32.to_bits());
}

#[test]
fn speed_check_agrees_with_float_range() {
    let samples = [
        0.0f32, -0.0, 0.1, 0.2499999, 0.25, 0.2500001, 1.0, 3.9999998, 4.0, 4.0000005, 5.0, -1.0,
        -0.25, f32::NAN, f32::INFINITY, f32::NEG_INFINITY, f32::MIN_POSITIVE, f32::MAX,
    ];
    for v in samples {
        let body = SpeechRequestBody::new(None, "hi".to_string(), "alloy".to_string(), None, Some(speed(v)));
        let accepted = body.into_request(&test_settings()).is_ok();
        assert_eq!(accepted, (0.25..=4.0).contains(&v), "speed {v}");
    }
}

#[test]
fn speed_error_quotes_the_speed() {
    let body = SpeechRequestBody::new(None, "hi".to_string(), "alloy".to_string(), None, Some(speed(5.0)));
    let err = body.into_request(&test_settings()).unwrap_err();
    assert_eq!(err.message(), "invalid request: speed must be between 0.25 and 4.0, got 5");
}

#[test]
fn non_speech_formats_are_rejected_before_synthesis() {
    for name in ["m4a", "ogg", "webm", "mp4", "mpeg", "mpga"] {
        let body = SpeechRequestBody::new(
            None,
            "hello".to_string(),
            "alloy".to_string(),
            Some(name.to_string()),
            None,
        );
        let err = body.into_request(&test_settings()).unwrap_err();
        assert_eq!(err.message(), format!("invalid request: invalid response_format: {name}"));
        assert_eq!(err.status_code(), 400);
    }
}

#[test]
fn explicit_model_and_format_are_kept() {
    let body = SpeechRequestBody::new(
        Some("my/model".to_string()),
        "hello".to_string(),
        "nova".to_string(),
        Some("FLAC".to_string()),
        None,
    );
    let req = body.into_request(&test_settings()).unwrap();
    assert_eq!(req.model, "my/model");
    assert_eq!(req.response_format, AudioFormat::Flac);
    assert_eq!(req.voice, "nova");
}

#[test]
fn format_is_checked_before_speed_and_fields() {
    let body = SpeechRequestBody::new(None, String::new(), String::new(), Some("xyz".to_string()), Some(speed(9.0)));
    let err = body.into_request(&test_settings()).unwrap_err();
    assert_eq!(err.message(), "invalid request: invalid response_format: xyz");
    let body = SpeechRequestBody::new(None, String::new(), String::new(), None, Some(speed(9.0)));
    assert!(matches!(body.into_request(&test_settings()).unwrap_err(), AppError::BadRequest(_)));
    let body = SpeechRequestBody::new(None, String::new(), String::new(), None, None);
    assert!(matches!(body.into_request(&test_settings()).unwrap_err(), AppError::MissingField("input")));
}

#[test]
fn non_speech_format_is_checked_after_fields() {
    let body = SpeechRequestBody::new(None, String::new(), "alloy".to_string(), Some("m4a".to_string()), None);
    assert!(matches!(body.into_request(&test_settings()).unwrap_err(), AppError::MissingField("input")));
    let body = SpeechRequestBody::new(None, "hi".to_string(), "alloy".to_string(), Some("m4a".to_string()), Some(speed(9.0)));
    let err = body.into_request(&test_settings()).unwrap_err();
    assert_eq!(err.message(), "invalid request: speed must be between 0.25 and 4.0, got 9");
    let body = SpeechRequestBody::new(None, "hi".to_string(), String::new(), Some("ogg".to_string()), None);
    assert!(matches!(body.into_request(&test_settings()).unwrap_err(), AppError::MissingField("voice")));
}

#[test]
fn pcm_at_native_rate_passes_through() {
    let svc = SpeechService::from_state(&test_settings());
    assert_eq!(svc.output_for(AudioFormat::Pcm), SpeechOutput::PassThrough);
    assert_eq!(svc.output_for(AudioFormat::Mp3), SpeechOutput::Transcode(AudioFormat::Mp3));
    let mut other = test_settings();
    other.audio.pcm_sample_rate = 16_000;
    let svc = SpeechService::from_state(&other);
    assert_eq!(svc.output_for(AudioFormat::Pcm), SpeechOutput::Transcode(AudioFormat::Pcm));
}

#[test]
fn speech_plan_and_next_step() {
    let svc = SpeechService::from_state(&test_settings());
    let body = SpeechRequestBody::new(None, "hello".to_string(), "alloy".to_string(), Some("pcm".to_string()), None);
    let plan = svc.plan(body.into_request(&test_settings()).unwrap());
    assert_eq!(plan.payload.model.as_deref(), Some("test/tts"));
    assert_eq!(plan.payload.input, "hello");
    assert_eq!(plan.output, SpeechOutput::PassThrough);
    match svc.after_synthesis(plan.output, SynthesisedSpeech { bytes: vec![0; 480] }) {
        SpeechStep::Done(a) => {
            assert_eq!(a.bytes.len(), 480);
            assert_eq!(a.format, AudioFormat::Pcm);
            assert_eq!(a.format.mime(), "audio/L16");
        }
        SpeechStep::Convert(..) => panic!("pcm at 24 kHz is passed through"),
    }
    match svc.after_synthesis(SpeechOutput::Transcode(AudioFormat::Wav), SynthesisedSpeech { bytes: vec![1, 2] }) {
        SpeechStep::Convert(a, f) => {
            assert_eq!(a.bytes, vec![1, 2]);
            assert_eq!(a.format, AudioFormat::Pcm);
            assert_eq!(f, AudioFormat::Wav);
        }
        SpeechStep::Done(_) => panic!("wav is re-encoded"),
    }
}
