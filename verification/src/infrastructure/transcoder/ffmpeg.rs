//! FFmpeg driving: the encoder settings for each output format, the names of
//! the temporary files, and the command line.
use vstd::prelude::*;

use super::config::TranscoderConfig;
use crate::domain::audio::format::{format_name, speech_output};
use crate::domain::audio::AudioFormat;
use crate::domain::text::{concat, decimal, decimal_string};

verus! {

/// The transcoder: FFmpeg with fixed sample rates and bitrates.
#[derive(Debug, Clone, Copy, PartialEq, Eq, Structural)]
pub struct FfmpegTranscoder {
    pub cfg: TranscoderConfig,
}

/// How FFmpeg encodes one output format.
#[derive(Debug, Clone, Copy)]
pub struct EncodeParams {
    pub codec: &'static str,
    pub sample_rate: u32,
    pub channels: u16,
    pub bitrate: u32,
    /// Extension of the output file.
    pub ext: &'static str,
    /// Container FFmpeg is told to write, when it cannot infer it.
    pub container_fmt: Option<&'static str>,
}

/// [`EncodeParams`] with its texts as character sequences.
pub struct EncodeParamsView {
    pub codec: Seq<char>,
    pub sample_rate: u32,
    pub channels: u16,
    pub bitrate: u32,
    pub ext: Seq<char>,
    pub container_fmt: Option<Seq<char>>,
}

impl View for EncodeParams {
    type V = EncodeParamsView;

    open spec fn view(&self) -> EncodeParamsView {
        EncodeParamsView {
            codec: self.codec@,
            sample_rate: self.sample_rate,
            channels: self.channels,
            bitrate: self.bitrate,
            ext: self.ext@,
            container_fmt: match self.container_fmt {
                Some(c) => Some(c@),
                None => None,
            },
        }
    }
}

/// Why a conversion could not be set up.
#[derive(Debug, Clone, Copy, PartialEq, Eq, Structural)]
pub enum TranscodeError {
    /// The target format has no encoder settings.
    UnsupportedOutputFormat(AudioFormat),
}

/// The encoder settings for `target`; `None` for formats audio is never
/// encoded to.
pub open spec fn encode_spec(cfg: TranscoderConfig, target: AudioFormat) -> Option<EncodeParamsView> {
    match target {
        AudioFormat::Mp3 => Some(EncodeParamsView {
            codec: "libmp3lame"@,
            sample_rate: cfg.stt_sample_rate,
            channels: 1,
            bitrate: cfg.mp3_bitrate_bps,
            ext: "mp3"@,
            container_fmt: None,
        }),
        AudioFormat::Opus => Some(EncodeParamsView {
            codec: "libopus"@,
            sample_rate: cfg.stt_sample_rate,
            channels: 1,
            bitrate: cfg.opus_bitrate_bps,
            ext: "ogg"@,
            container_fmt: None,
        }),
        AudioFormat::Aac => Some(EncodeParamsView {
            codec: "aac"@,
            sample_rate: cfg.stt_sample_rate,
            channels: 1,
            bitrate: cfg.aac_bitrate_bps,
            ext: "aac"@,
            container_fmt: None,
        }),
        AudioFormat::Flac => Some(EncodeParamsView {
            codec: "flac"@,
            sample_rate: cfg.stt_sample_rate,
            channels: 1,
            bitrate: 0,
            ext: "flac"@,
            container_fmt: None,
        }),
        AudioFormat::Wav => Some(EncodeParamsView {
            codec: "pcm_s16le"@,
            sample_rate: cfg.pcm_sample_rate,
            channels: 1,
            bitrate: 0,
            ext: "wav"@,
            container_fmt: None,
        }),
        AudioFormat::Pcm => Some(EncodeParamsView {
            codec: "pcm_s16le"@,
            sample_rate: cfg.pcm_sample_rate,
            channels: 1,
            bitrate: 0,
            ext: "pcm"@,
            container_fmt: Some("s16le"@),
        }),
        _ => None,
    }
}

/// The text of a transcoding error.
pub open spec fn transcode_error_message(e: TranscodeError) -> Seq<char> {
    match e {
        TranscodeError::UnsupportedOutputFormat(f) => "unsupported output audio format: "@
            + format_name(f),
    }
}

impl TranscodeError {
    pub fn message(&self) -> (m: String)
        ensures
            m@ == transcode_error_message(*self),
    {
        match self {
            TranscodeError::UnsupportedOutputFormat(f) => concat(
                "unsupported output audio format: ",
                f.as_str(),
            ),
        }
    }
}

/// The encoder settings for `target` under `cfg`.
pub fn encode_params(cfg: &TranscoderConfig, target: AudioFormat) -> (r: Result<
    EncodeParams,
    TranscodeError,
>)
    ensures
        match r {
            Ok(p) => encode_spec(*cfg, target) == Some(p@),
            Err(e) => encode_spec(*cfg, target) is None && e
                == TranscodeError::UnsupportedOutputFormat(target),
        },
{
    match target {
        AudioFormat::Mp3 => Ok(
            EncodeParams {
                codec: "libmp3lame",
                sample_rate: cfg.stt_sample_rate,
                channels: 1,
                bitrate: cfg.mp3_bitrate_bps,
                ext: "mp3",
                container_fmt: None,
            },
        ),
        AudioFormat::Opus => Ok(
            EncodeParams {
                codec: "libopus",
                sample_rate: cfg.stt_sample_rate,
                channels: 1,
                bitrate: cfg.opus_bitrate_bps,
                ext: "ogg",
                container_fmt: None,
            },
        ),
        AudioFormat::Aac => Ok(
            EncodeParams {
                codec: "aac",
                sample_rate: cfg.stt_sample_rate,
                channels: 1,
                bitrate: cfg.aac_bitrate_bps,
                ext: "aac",
                container_fmt: None,
            },
        ),
        AudioFormat::Flac => Ok(
            EncodeParams {
                codec: "flac",
                sample_rate: cfg.stt_sample_rate,
                channels: 1,
                bitrate: 0,
                ext: "flac",
                container_fmt: None,
            },
        ),
        AudioFormat::Wav => Ok(
            EncodeParams {
                codec: "pcm_s16le",
                sample_rate: cfg.pcm_sample_rate,
                channels: 1,
                bitrate: 0,
                ext: "wav",
                container_fmt: None,
            },
        ),
        AudioFormat::Pcm => Ok(
            EncodeParams {
                codec: "pcm_s16le",
                sample_rate: cfg.pcm_sample_rate,
                channels: 1,
                bitrate: 0,
                ext: "pcm",
                container_fmt: Some("s16le"),
            },
        ),
        _ => Err(TranscodeError::UnsupportedOutputFormat(target)),
    }
}

/// The FFmpeg arguments that convert the file at `input` (audio in format
/// `src`) into the file at `output`, encoded as `p` says.
///
/// Raw PCM input has no header, so its layout (signed 16-bit little-endian,
/// 24 kHz, mono) is given before the input.
pub open spec fn ffmpeg_args_spec(
    src: AudioFormat,
    input: Seq<char>,
    output: Seq<char>,
    p: EncodeParamsView,
) -> Seq<Seq<char>> {
    seq!["-hide_banner"@, "-loglevel"@, "warning"@] + (if src == AudioFormat::Pcm {
        seq!["-f"@, "s16le"@, "-ar"@, "24000"@, "-ac"@, "1"@]
    } else {
        Seq::empty()
    }) + seq![
        "-i"@,
        input,
        "-acodec"@,
        p.codec,
        "-ar"@,
        decimal(p.sample_rate as nat),
        "-ac"@,
        decimal(p.channels as nat),
        "-b:a"@,
        decimal(p.bitrate as nat),
    ] + (match p.container_fmt {
        Some(f) => seq!["-f"@, f],
        None => Seq::empty(),
    }) + seq!["-y"@, output]
}

/// The views of a list of strings.
pub open spec fn string_views(v: Seq<String>) -> Seq<Seq<char>> {
    v.map_values(|s: String| s@)
}

fn push_str(v: &mut Vec<String>, s: &str)
    ensures
        string_views(final(v)@) == string_views(old(v)@).push(s@),
{
    let ghost before = v@;
    v.push(String::from_str(s));
    assert(string_views(v@) =~= string_views(before).push(s@));
}

/// The command-line arguments FFmpeg is run with.
pub fn ffmpeg_args(src: AudioFormat, input: &str, output: &str, params: &EncodeParams) -> (r: Vec<
    String,
>)
    ensures
        string_views(r@) == ffmpeg_args_spec(src, input@, output@, params@),
{
    let mut args: Vec<String> = Vec::new();
    push_str(&mut args, "-hide_banner");
    push_str(&mut args, "-loglevel");
    push_str(&mut args, "warning");
    let ghost head = string_views(args@);
    if src == AudioFormat::Pcm {
        push_str(&mut args, "-f");
        push_str(&mut args, "s16le");
        push_str(&mut args, "-ar");
        push_str(&mut args, "24000");
        push_str(&mut args, "-ac");
        push_str(&mut args, "1");
    }
    let ghost raw = string_views(args@);
    push_str(&mut args, "-i");
    push_str(&mut args, input);
    push_str(&mut args, "-acodec");
    push_str(&mut args, params.codec);
    push_str(&mut args, "-ar");
    let sr = decimal_string(params.sample_rate as u64);
    push_str(&mut args, sr.as_str());
    push_str(&mut args, "-ac");
    let ch = decimal_string(params.channels as u64);
    push_str(&mut args, ch.as_str());
    push_str(&mut args, "-b:a");
    let br = decimal_string(params.bitrate as u64);
    push_str(&mut args, br.as_str());
    let ghost enc = string_views(args@);
    match params.container_fmt {
        Some(f) => {
            push_str(&mut args, "-f");
            push_str(&mut args, f);
        },
        None => {},
    }
    let ghost cont = string_views(args@);
    push_str(&mut args, "-y");
    push_str(&mut args, output);
    proof {
        let p = params@;
        let pcm_part: Seq<Seq<char>> = if src == AudioFormat::Pcm {
            seq!["-f"@, "s16le"@, "-ar"@, "24000"@, "-ac"@, "1"@]
        } else {
            Seq::empty()
        };
        let cont_part: Seq<Seq<char>> = match p.container_fmt {
            Some(f) => seq!["-f"@, f],
            None => Seq::empty(),
        };
        assert(head =~= seq!["-hide_banner"@, "-loglevel"@, "warning"@]);
        assert(raw =~= head + pcm_part);
        assert(enc =~= raw + seq![
            "-i"@,
            input@,
            "-acodec"@,
            p.codec,
            "-ar"@,
            decimal(p.sample_rate as nat),
            "-ac"@,
            decimal(p.channels as nat),
            "-b:a"@,
            decimal(p.bitrate as nat),
        ]);
        assert(cont =~= enc + cont_part);
        assert(string_views(args@) =~= cont + seq!["-y"@, output@]);
    }
    args
}

/// A planned conversion: encoder settings and temporary file names.
pub struct TranscodePlan {
    pub target: AudioFormat,
    pub params: EncodeParams,
    /// Suffix of the temporary file the source audio is written to.
    pub input_suffix: String,
    /// Prefix of the temporary file FFmpeg writes to.
    pub output_prefix: &'static str,
    /// Suffix of the temporary file FFmpeg writes to.
    pub output_suffix: String,
}

impl FfmpegTranscoder {
    pub fn new(cfg: TranscoderConfig) -> (r: Result<Self, TranscodeError>)
        ensures
            r == Ok::<Self, TranscodeError>(FfmpegTranscoder { cfg }),
    {
        Ok(FfmpegTranscoder { cfg })
    }

    /// Plans the conversion of audio in format `src` to `target`: fails
    /// exactly when `target` has no encoder settings.
    pub fn plan(&self, src: AudioFormat, target: AudioFormat) -> (r: Result<TranscodePlan, TranscodeError>)
        ensures
            match r {
                Ok(plan) => {
                    &&& encode_spec(self.cfg, target) == Some(plan.params@)
                    &&& plan.target == target
                    &&& plan.input_suffix@ == "."@ + format_name(src)
                    &&& plan.output_prefix@ == "proxid_out_"@
                    &&& plan.output_suffix@ == "."@ + plan.params.ext@
                },
                Err(e) => encode_spec(self.cfg, target) is None && e
                    == TranscodeError::UnsupportedOutputFormat(target),
            },
    {
        let params = encode_params(&self.cfg, target)?;
        let input_suffix = concat(".", src.as_str());
        let output_suffix = concat(".", params.ext);
        Ok(TranscodePlan { target, params, input_suffix, output_prefix: "proxid_out_", output_suffix })
    }
}

/// Every format the speech endpoint answers in has encoder settings, and no
/// other format has: a speech response never fails for want of an encoder.
pub proof fn lemma_speech_formats_are_encodable(cfg: TranscoderConfig, f: AudioFormat)
    ensures
        speech_output(f) is Some <==> encode_spec(cfg, f) is Some,
{
}

/// Only raw PCM output names its container: FFmpeg infers every other
/// container from the output file, so for every encodable target the
/// forced container is `s16le` exactly when the target is raw PCM.
pub proof fn lemma_only_raw_pcm_forces_a_container(cfg: TranscoderConfig, f: AudioFormat)
    ensures
        encode_spec(cfg, f) matches Some(p) ==> (f is Pcm ==> p.container_fmt == Some("s16le"@))
            && (!(f is Pcm) ==> p.container_fmt is None),
{
}

/// Every encoded output is mono; the lossless and raw outputs (flac, wav,
/// pcm) carry no bitrate, while each lossy one uses its configured bitrate;
/// wav and pcm are written at the PCM rate, the others at the transcription
/// rate; and the output file is named after the format, Opus living in an
/// `.ogg` file.
pub proof fn lemma_encoder_settings_follow_the_format(cfg: TranscoderConfig, f: AudioFormat)
    ensures
        encode_spec(cfg, f) matches Some(p) ==> {
            &&& p.channels == 1
            &&& (p.bitrate == 0 <== (f is Flac || f is Wav || f is Pcm))
            &&& (f is Mp3 ==> p.bitrate == cfg.mp3_bitrate_bps)
            &&& (f is Aac ==> p.bitrate == cfg.aac_bitrate_bps)
            &&& (f is Opus ==> p.bitrate == cfg.opus_bitrate_bps)
            &&& ((f is Wav || f is Pcm) ==> p.sample_rate == cfg.pcm_sample_rate)
            &&& (!(f is Wav || f is Pcm) ==> p.sample_rate == cfg.stt_sample_rate)
            &&& (f is Opus ==> p.ext == "ogg"@)
            &&& (!(f is Opus) ==> p.ext == format_name(f))
        },
{
}

/// The raw-PCM input layout (`-f s16le -ar 24000 -ac 1`) is given before
/// `-i` exactly when the source is raw PCM; every other source is probed by
/// FFmpeg, and its arguments begin `-hide_banner -loglevel warning -i
/// <input>`. Whatever the source, the arguments end `-y <output>`.
pub proof fn lemma_input_layout_only_for_raw_pcm(
    src: AudioFormat,
    input: Seq<char>,
    output: Seq<char>,
    p: EncodeParamsView,
)
    ensures
        !(src is Pcm) ==> ffmpeg_args_spec(src, input, output, p).subrange(0, 5) == seq![
            "-hide_banner"@,
            "-loglevel"@,
            "warning"@,
            "-i"@,
            input,
        ],
        src is Pcm ==> ffmpeg_args_spec(src, input, output, p).subrange(0, 11) == seq![
            "-hide_banner"@,
            "-loglevel"@,
            "warning"@,
            "-f"@,
            "s16le"@,
            "-ar"@,
            "24000"@,
            "-ac"@,
            "1"@,
            "-i"@,
            input,
        ],
        ({
            let a = ffmpeg_args_spec(src, input, output, p);
            a.len() >= 2 && a[a.len() - 2] == "-y"@ && a[a.len() - 1] == output
        }),
{
    let a = ffmpeg_args_spec(src, input, output, p);
    if src is Pcm {
        assert(a.subrange(0, 11) =~= seq![
            "-hide_banner"@,
            "-loglevel"@,
            "warning"@,
            "-f"@,
            "s16le"@,
            "-ar"@,
            "24000"@,
            "-ac"@,
            "1"@,
            "-i"@,
            input,
        ]);
    } else {
        assert(a.subrange(0, 5) =~= seq!["-hide_banner"@, "-loglevel"@, "warning"@, "-i"@, input]);
    }
}

} // verus!
