use proxid::domain::audio::AudioFormat;
use proxid::domain::text::{decimal_string, file_extension};
use proxid::features::transcription::dto::TranscriptionResponseBody;
use proxid::features::transcription::extractor::{
    classify_field, read_failure, FieldKind, ReadStage, TranscriptionFormBuilder,
};
use proxid::features::transcription::service::plan_transcription;
use proxid::domain::audio::SourceAudio;
use proxid::AppError;

#[test]
fn extension_of_file_names() {
    assert_eq!(file_extension("test.wav").as_deref(), Some("wav"));
    assert_eq!(file_extension("sample.mp3").as_deref(), Some("mp3"));
    assert_eq!(file_extension("a.b.flac").as_deref(), Some("flac"));
    assert_eq!(file_extension("dir/test.OGG").as_deref(), Some("OGG"));
    assert_eq!(file_extension("noext"), None);
    assert_eq!(file_extension(".hidden"), None);
    assert_eq!(file_extension("name."), Some(String::new()));
    assert_eq!(file_extension("..."), Some(String::new()));
    assert_eq!(file_extension(".."), None);
    assert_eq!(file_extension("."), None);
    assert_eq!(file_extension(""), None);
    assert_eq!(file_extension("dir.x/"), Some("x".to_string()));
    assert_eq!(file_extension("dir.x/."), Some("x".to_string()));
    assert_eq!(file_extension("a.wav/.."), None);
    assert_eq!(file_extension("/"), None);
}

#[test]
fn extension_agrees_with_std_path() {
    let names = [
        "test.wav", "x/y/z.mp3", ".bashrc", "a.", "..", "...", "a/./b.c", "a//b.c", "dir/", "./",
        "./x.y", "x.y/..", "a.b/c", "", ".", "/", "f.tar.gz", "é.ogg", "a/.b.c",
    ];
    for n in names {
        let expected = std::path::Path::new(n).extension().and_then(|e| e.to_str()).map(str::to_string);
        assert_eq!(file_extension(n), expected, "name {n:?}");
    }
}

#[test]
fn decimal_rendering() {
    assert_eq!(decimal_string(0), "0");
    assert_eq!(decimal_string(7), "7");
    assert_eq!(decimal_string(24_000), "24000");
    assert_eq!(decimal_string(u64::MAX), u64::MAX.to_string());
}

#[test]
fn classify_known_fields() {
    assert_eq!(classify_field(Some("file"), Some("test.wav")).unwrap(), FieldKind::File(AudioFormat::Wav));
    assert_eq!(classify_field(Some("file"), Some("sample.MP3")).unwrap(), FieldKind::File(AudioFormat::Mp3));
    assert_eq!(classify_field(Some("model"), None).unwrap(), FieldKind::Model);
    assert_eq!(classify_field(Some("temperature"), None).unwrap(), FieldKind::Temperature);
    assert_eq!(classify_field(Some("language"), None).unwrap(), FieldKind::Ignored);
    assert_eq!(classify_field(Some("File"), Some("x.wav")).unwrap(), FieldKind::Ignored);
}

#[test]
fn classify_rejects_bad_files() {
    assert!(matches!(classify_field(None, None), Err(AppError::MissingField("field name"))));
    assert!(matches!(classify_field(Some("file"), None), Err(AppError::MissingField("file name"))));
    match classify_field(Some("file"), Some("noext")) {
        Err(e) => assert_eq!(e.message(), "invalid request: missing file extension"),
        Ok(k) => panic!("unexpected {k:?}"),
    }
    match classify_field(Some("file"), Some("test.xyz")) {
        Err(AppError::UnsupportedFormat(ext)) => assert_eq!(ext, "xyz"),
        other => panic!("unexpected {other:?}"),
    }
    assert_eq!(classify_field(Some("file"), Some("test.xyz")).unwrap_err().status_code(), 400);
}

#[test]
fn form_without_file_is_missing_file() {
    let mut b = TranscriptionFormBuilder::new("openai/whisper-large-v3".to_string());
    b.accept_model("openai/whisper-large-v3".to_string());
    assert!(matches!(b.finish(), Err(AppError::MissingField("file"))));
}

#[test]
fn form_collects_fields() {
    let mut b = TranscriptionFormBuilder::new("default/model".to_string());
    b.accept_file(vec![1, 2, 3], AudioFormat::Wav);
    b.accept_model(String::new());
    assert_eq!(b.model, "default/model");
    b.accept_model("custom/stt-model".to_string());
    b.accept_temperature("0.2".to_string(), Some(0.2f32.to_bits())).unwrap();
    b.accept_file(vec![9], AudioFormat::Mp3);
    let form = b.finish().unwrap();
    assert_eq!(form.model, "custom/stt-model");
    assert_eq!(form.temperature.map(f32::from_bits), Some(0.2));
    assert_eq!(form.audio.bytes, vec![9]);
    assert_eq!(form.audio.format, AudioFormat::Mp3);
}

#[test]
fn invalid_temperature_is_rejected() {
    let mut b = TranscriptionFormBuilder::new("m".to_string());
    let err = b.accept_temperature("not-a-number".to_string(), None).unwrap_err();
    assert_eq!(err.message(), "invalid request: invalid temperature: not-a-number");
    assert_eq!(err.status_code(), 400);
    assert!(b.temperature.is_none());
}

#[test]
fn read_failures_are_bad_requests() {
    let e = read_failure(ReadStage::File, "stream closed");
    assert_eq!(e.message(), "invalid request: failed to read file: stream closed");
    assert_eq!(read_failure(ReadStage::Field, "x").message(), "invalid request: failed to read field: x");
    assert_eq!(read_failure(ReadStage::Model, "x").message(), "invalid request: failed to read model: x");
    assert_eq!(
        read_failure(ReadStage::Temperature, "x").message(),
        "invalid request: failed to read temperature: x"
    );
}

#[test]
fn transcription_plan_sends_wav() {
    let mut b = TranscriptionFormBuilder::new("m".to_string());
    b.accept_file(vec![5, 6], AudioFormat::Mp3);
    let plan = plan_transcription(b.finish().unwrap());
    assert_eq!(plan.source.format, AudioFormat::Mp3);
    assert_eq!(plan.source.bytes, vec![5, 6]);
    assert_eq!(plan.target, AudioFormat::Wav);
    let payload = plan.payload(SourceAudio::new(vec![7, 7, 7], AudioFormat::Wav));
    assert_eq!(payload.audio_bytes, vec![7, 7, 7]);
    assert_eq!(payload.format, AudioFormat::Wav);
    assert_eq!(payload.model.as_deref(), Some("m"));
    assert!(payload.temperature.is_none());
    assert_eq!(TranscriptionResponseBody::new("hi".to_string()).text, "hi");
}
