use proxid::config::AudioConfig;
use proxid::domain::audio::AudioFormat;
use proxid::infrastructure::transcoder::ffmpeg::{encode_params, ffmpeg_args};
use proxid::infrastructure::transcoder::{FfmpegTranscoder, TranscodeError, TranscoderConfig};

fn test_cfg() -> TranscoderConfig {
    TranscoderConfig::new(16_000, 160_000, 128_000, 64_000, 24_000)
}

#[test]
fn encoder_params_returns_correct_values() {
    let cfg = test_cfg();

    let params = encode_params(&cfg, AudioFormat::Mp3).unwrap();
    assert_eq!(params.codec, "libmp3lame");
    assert_eq!(params.sample_rate, 16_000);
    assert_eq!(params.channels, 1);
    assert_eq!(params.bitrate, 128_000);
    assert_eq!(params.ext, "mp3");
    assert!(params.container_fmt.is_none());

    let params = encode_params(&cfg, AudioFormat::Opus).unwrap();
    assert_eq!(params.codec, "libopus");
    assert_eq!(params.sample_rate, 16_000);
    assert_eq!(params.bitrate, 64_000);
    assert_eq!(params.ext, "ogg");

    let params = encode_params(&cfg, AudioFormat::Pcm).unwrap();
    assert_eq!(params.codec, "pcm_s16le");
    assert_eq!(params.sample_rate, 24_000);
    assert_eq!(params.container_fmt, Some("s16le"));
}

#[test]
fn encoder_params_rejects_unsupported_formats() {
    let cfg = test_cfg();
    assert!(encode_params(&cfg, AudioFormat::M4a).is_err());
    assert!(encode_params(&cfg, AudioFormat::Ogg).is_err());
    assert!(encode_params(&cfg, AudioFormat::Webm).is_err());
}

#[test]
fn encoder_params_for_the_other_formats() {
    let cfg = test_cfg();
    let aac = encode_params(&cfg, AudioFormat::Aac).unwrap();
    assert_eq!((aac.codec, aac.sample_rate, aac.bitrate, aac.ext), ("aac", 16_000, 160_000, "aac"));
    let flac = encode_params(&cfg, AudioFormat::Flac).unwrap();
    assert_eq!((flac.codec, flac.sample_rate, flac.bitrate, flac.ext), ("flac", 16_000, 0, "flac"));
    let wav = encode_params(&cfg, AudioFormat::Wav).unwrap();
    assert_eq!((wav.codec, wav.sample_rate, wav.bitrate, wav.ext), ("pcm_s16le", 24_000, 0, "wav"));
    assert!(wav.container_fmt.is_none());
    for f in [AudioFormat::Mp4, AudioFormat::Mpeg, AudioFormat::Mpga] {
        match encode_params(&cfg, f) {
            Err(e) => assert_eq!(e, TranscodeError::UnsupportedOutputFormat(f)),
            Ok(_) => panic!("{f:?} has no encoder"),
        }
    }
    assert_eq!(
        TranscodeError::UnsupportedOutputFormat(AudioFormat::M4a).message(),
        "unsupported output audio format: m4a"
    );
}

#[test]
fn ffmpeg_args_for_pcm_input_to_mp3() {
    let params = encode_params(&test_cfg(), AudioFormat::Mp3).unwrap();
    let args = ffmpeg_args(AudioFormat::Pcm, "/tmp/in.pcm", "/tmp/out.mp3", &params);
    assert_eq!(
        args,
        vec![
            "-hide_banner", "-loglevel", "warning", "-f", "s16le", "-ar", "24000", "-ac", "1",
            "-i", "/tmp/in.pcm", "-acodec", "libmp3lame", "-ar", "16000", "-ac", "1", "-b:a",
            "128000", "-y", "/tmp/out.mp3",
        ]
    );
}

#[test]
fn ffmpeg_args_for_wav_input_to_pcm() {
    let params = encode_params(&test_cfg(), AudioFormat::Pcm).unwrap();
    let args = ffmpeg_args(AudioFormat::Wav, "in.wav", "out.pcm", &params);
    assert_eq!(
        args,
        vec![
            "-hide_banner", "-loglevel", "warning", "-i", "in.wav", "-acodec", "pcm_s16le", "-ar",
            "24000", "-ac", "1", "-b:a", "0", "-f", "s16le", "-y", "out.pcm",
        ]
    );
}

#[test]
fn transcoder_plan_names_temporary_files() {
    let t = FfmpegTranscoder::new(test_cfg()).unwrap();
    assert_eq!(t.cfg, test_cfg());
    let plan = t.plan(AudioFormat::Pcm, AudioFormat::Opus).unwrap();
    assert_eq!(plan.input_suffix, ".pcm");
    assert_eq!(plan.output_prefix, "proxid_out_");
    assert_eq!(plan.output_suffix, ".ogg");
    assert_eq!(plan.target, AudioFormat::Opus);
    assert!(matches!(
        t.plan(AudioFormat::Pcm, AudioFormat::Webm),
        Err(TranscodeError::UnsupportedOutputFormat(AudioFormat::Webm))
    ));
}

#[test]
fn transcoder_config_from_audio_config() {
    let audio = AudioConfig {
        stt_sample_rate: 8_000,
        aac_bitrate_bps: 1,
        mp3_bitrate_bps: 2,
        opus_bitrate_bps: 3,
        pcm_sample_rate: 48_000,
    };
    let cfg = TranscoderConfig::from(&audio);
    assert_eq!(cfg, TranscoderConfig::new(8_000, 1, 2, 3, 48_000));
    assert_eq!(cfg.pcm_sample_rate(), 48_000);
    assert_eq!(cfg.stt_sample_rate(), 8_000);
}
