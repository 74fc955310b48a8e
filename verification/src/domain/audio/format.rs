//! Audio formats: their names, how a name is read back, their MIME types and
//! which of them the speech endpoint can produce.
use vstd::prelude::*;

use crate::domain::text::{ascii_lower_code, eq_ignore_ascii_case, str_eq_ignore_ascii_case};

verus! {

/// An audio container or codec the proxy knows by name.
#[derive(Debug, Clone, Copy, PartialEq, Eq, Structural)]
pub enum AudioFormat {
    Mp3,
    Wav,
    Flac,
    M4a,
    Ogg,
    Webm,
    Mp4,
    Mpeg,
    Mpga,
    Aac,
    Opus,
    Pcm,
}

/// The output encodings the transcoder can be asked for.
#[derive(Debug, Clone, Copy, PartialEq, Eq, Structural)]
pub enum OutputFormat {
    SttWav,
    Mp3,
    Opus,
    Aac,
    Flac,
    Wav,
    Pcm,
}

/// Error of [`AudioFormat::from_str`]: the text names no format.
#[derive(Debug, Clone, Copy, PartialEq, Eq, Structural)]
pub enum FormatParseError {
    VariantNotFound,
}

/// The lower-case name of a format, as it is written in file extensions and
/// in the `response_format` field.
pub open spec fn format_name(f: AudioFormat) -> Seq<char> {
    match f {
        AudioFormat::Mp3 => "mp3"@,
        AudioFormat::Wav => "wav"@,
        AudioFormat::Flac => "flac"@,
        AudioFormat::M4a => "m4a"@,
        AudioFormat::Ogg => "ogg"@,
        AudioFormat::Webm => "webm"@,
        AudioFormat::Mp4 => "mp4"@,
        AudioFormat::Mpeg => "mpeg"@,
        AudioFormat::Mpga => "mpga"@,
        AudioFormat::Aac => "aac"@,
        AudioFormat::Opus => "opus"@,
        AudioFormat::Pcm => "pcm"@,
    }
}

/// The format whose name equals `s` up to ASCII case, if there is one.
pub open spec fn parse_format(s: Seq<char>) -> Option<AudioFormat> {
    if eq_ignore_ascii_case(s, "mp3"@) {
        Some(AudioFormat::Mp3)
    } else if eq_ignore_ascii_case(s, "wav"@) {
        Some(AudioFormat::Wav)
    } else if eq_ignore_ascii_case(s, "flac"@) {
        Some(AudioFormat::Flac)
    } else if eq_ignore_ascii_case(s, "m4a"@) {
        Some(AudioFormat::M4a)
    } else if eq_ignore_ascii_case(s, "ogg"@) {
        Some(AudioFormat::Ogg)
    } else if eq_ignore_ascii_case(s, "webm"@) {
        Some(AudioFormat::Webm)
    } else if eq_ignore_ascii_case(s, "mp4"@) {
        Some(AudioFormat::Mp4)
    } else if eq_ignore_ascii_case(s, "mpeg"@) {
        Some(AudioFormat::Mpeg)
    } else if eq_ignore_ascii_case(s, "mpga"@) {
        Some(AudioFormat::Mpga)
    } else if eq_ignore_ascii_case(s, "aac"@) {
        Some(AudioFormat::Aac)
    } else if eq_ignore_ascii_case(s, "opus"@) {
        Some(AudioFormat::Opus)
    } else if eq_ignore_ascii_case(s, "pcm"@) {
        Some(AudioFormat::Pcm)
    } else {
        None
    }
}

/// The MIME type sent as `Content-Type` for audio of a format.
pub open spec fn format_mime(f: AudioFormat) -> Seq<char> {
    match f {
        AudioFormat::Mp3 => "audio/mpeg"@,
        AudioFormat::Wav => "audio/wav"@,
        AudioFormat::Flac => "audio/flac"@,
        AudioFormat::M4a => "audio/mp4"@,
        AudioFormat::Ogg => "audio/ogg"@,
        AudioFormat::Webm => "audio/webm"@,
        AudioFormat::Mp4 => "audio/mp4"@,
        AudioFormat::Mpeg => "audio/mpeg"@,
        AudioFormat::Mpga => "audio/mpeg"@,
        AudioFormat::Aac => "audio/aac"@,
        AudioFormat::Opus => "audio/opus"@,
        AudioFormat::Pcm => "audio/L16"@,
    }
}

/// The output a speech response in format `f` is produced in, if speech can
/// be produced in `f` at all.
pub open spec fn speech_output(f: AudioFormat) -> Option<OutputFormat> {
    match f {
        AudioFormat::Mp3 => Some(OutputFormat::Mp3),
        AudioFormat::Opus => Some(OutputFormat::Opus),
        AudioFormat::Aac => Some(OutputFormat::Aac),
        AudioFormat::Flac => Some(OutputFormat::Flac),
        AudioFormat::Wav => Some(OutputFormat::Wav),
        AudioFormat::Pcm => Some(OutputFormat::Pcm),
        _ => None,
    }
}

impl AudioFormat {
    /// Reads a format from its name, ignoring ASCII case (`"MP3"`, `"Wav"`).
    pub fn from_str(s: &str) -> (r: Result<AudioFormat, FormatParseError>)
        ensures
            r == (match parse_format(s@) {
                Some(f) => Ok(f),
                None => Err(FormatParseError::VariantNotFound),
            }),
    {
        if str_eq_ignore_ascii_case(s, "mp3") {
            Ok(AudioFormat::Mp3)
        } else if str_eq_ignore_ascii_case(s, "wav") {
            Ok(AudioFormat::Wav)
        } else if str_eq_ignore_ascii_case(s, "flac") {
            Ok(AudioFormat::Flac)
        } else if str_eq_ignore_ascii_case(s, "m4a") {
            Ok(AudioFormat::M4a)
        } else if str_eq_ignore_ascii_case(s, "ogg") {
            Ok(AudioFormat::Ogg)
        } else if str_eq_ignore_ascii_case(s, "webm") {
            Ok(AudioFormat::Webm)
        } else if str_eq_ignore_ascii_case(s, "mp4") {
            Ok(AudioFormat::Mp4)
        } else if str_eq_ignore_ascii_case(s, "mpeg") {
            Ok(AudioFormat::Mpeg)
        } else if str_eq_ignore_ascii_case(s, "mpga") {
            Ok(AudioFormat::Mpga)
        } else if str_eq_ignore_ascii_case(s, "aac") {
            Ok(AudioFormat::Aac)
        } else if str_eq_ignore_ascii_case(s, "opus") {
            Ok(AudioFormat::Opus)
        } else if str_eq_ignore_ascii_case(s, "pcm") {
            Ok(AudioFormat::Pcm)
        } else {
            Err(FormatParseError::VariantNotFound)
        }
    }

    /// The lower-case name of the format (`"mp3"`, `"wav"`, ...).
    pub fn as_str(self) -> (r: &'static str)
        ensures
            r@ == format_name(self),
    {
        match self {
            AudioFormat::Mp3 => "mp3",
            AudioFormat::Wav => "wav",
            AudioFormat::Flac => "flac",
            AudioFormat::M4a => "m4a",
            AudioFormat::Ogg => "ogg",
            AudioFormat::Webm => "webm",
            AudioFormat::Mp4 => "mp4",
            AudioFormat::Mpeg => "mpeg",
            AudioFormat::Mpga => "mpga",
            AudioFormat::Aac => "aac",
            AudioFormat::Opus => "opus",
            AudioFormat::Pcm => "pcm",
        }
    }

    /// The MIME type of the format.
    pub fn mime(self) -> (r: &'static str)
        ensures
            r@ == format_mime(self),
    {
        match self {
            AudioFormat::Mp3 => "audio/mpeg",
            AudioFormat::Wav => "audio/wav",
            AudioFormat::Flac => "audio/flac",
            AudioFormat::M4a => "audio/mp4",
            AudioFormat::Ogg => "audio/ogg",
            AudioFormat::Webm => "audio/webm",
            AudioFormat::Mp4 => "audio/mp4",
            AudioFormat::Mpeg => "audio/mpeg",
            AudioFormat::Mpga => "audio/mpeg",
            AudioFormat::Aac => "audio/aac",
            AudioFormat::Opus => "audio/opus",
            AudioFormat::Pcm => "audio/L16",
        }
    }
}

impl OutputFormat {
    /// The output used for a speech response in `format`; `None` for the
    /// formats speech cannot be produced in.
    pub fn for_speech(format: AudioFormat) -> (r: Option<OutputFormat>)
        ensures
            r == speech_output(format),
    {
        match format {
            AudioFormat::Mp3 => Some(OutputFormat::Mp3),
            AudioFormat::Opus => Some(OutputFormat::Opus),
            AudioFormat::Aac => Some(OutputFormat::Aac),
            AudioFormat::Flac => Some(OutputFormat::Flac),
            AudioFormat::Wav => Some(OutputFormat::Wav),
            AudioFormat::Pcm => Some(OutputFormat::Pcm),
            _ => None,
        }
    }
}

/// Two different formats have names that differ even when case is ignored.
pub proof fn lemma_names_differ(f: AudioFormat, g: AudioFormat)
    requires
        f != g,
    ensures
        !eq_ignore_ascii_case(format_name(f), format_name(g)),
{
    reveal_strlit("mp3");
    reveal_strlit("wav");
    reveal_strlit("flac");
    reveal_strlit("m4a");
    reveal_strlit("ogg");
    reveal_strlit("webm");
    reveal_strlit("mp4");
    reveal_strlit("mpeg");
    reveal_strlit("mpga");
    reveal_strlit("aac");
    reveal_strlit("opus");
    reveal_strlit("pcm");
    let n = format_name(f);
    let m = format_name(g);
    if n.len() == m.len() {
        assert(ascii_lower_code(n[0]) != ascii_lower_code(m[0]) || ascii_lower_code(n[1])
            != ascii_lower_code(m[1]) || ascii_lower_code(n[2]) != ascii_lower_code(m[2]));
    }
}

/// Every format reads back from its own name: `from_str(f.as_str()) == Ok(f)`.
pub proof fn lemma_name_round_trip(f: AudioFormat)
    ensures
        parse_format(format_name(f)) == Some(f),
{
    let n = format_name(f);
    assert(eq_ignore_ascii_case(n, n));
    if f != AudioFormat::Mp3 {
        lemma_names_differ(f, AudioFormat::Mp3);
    }
    if f != AudioFormat::Wav {
        lemma_names_differ(f, AudioFormat::Wav);
    }
    if f != AudioFormat::Flac {
        lemma_names_differ(f, AudioFormat::Flac);
    }
    if f != AudioFormat::M4a {
        lemma_names_differ(f, AudioFormat::M4a);
    }
    if f != AudioFormat::Ogg {
        lemma_names_differ(f, AudioFormat::Ogg);
    }
    if f != AudioFormat::Webm {
        lemma_names_differ(f, AudioFormat::Webm);
    }
    if f != AudioFormat::Mp4 {
        lemma_names_differ(f, AudioFormat::Mp4);
    }
    if f != AudioFormat::Mpeg {
        lemma_names_differ(f, AudioFormat::Mpeg);
    }
    if f != AudioFormat::Mpga {
        lemma_names_differ(f, AudioFormat::Mpga);
    }
    if f != AudioFormat::Aac {
        lemma_names_differ(f, AudioFormat::Aac);
    }
    if f != AudioFormat::Opus {
        lemma_names_differ(f, AudioFormat::Opus);
    }
    if f != AudioFormat::Pcm {
        lemma_names_differ(f, AudioFormat::Pcm);
    }
}

/// Parsing ignores ASCII case: two texts that agree once lower-cased name the
/// same format, or both name none.
pub proof fn lemma_parse_ignores_ascii_case(s: Seq<char>, t: Seq<char>)
    requires
        eq_ignore_ascii_case(s, t),
    ensures
        parse_format(s) == parse_format(t),
{
    assert forall|n: Seq<char>| eq_ignore_ascii_case(s, n) <==> eq_ignore_ascii_case(t, n) by {
        if eq_ignore_ascii_case(s, n) {
            assert forall|i: int| 0 <= i < t.len() implies #[trigger] ascii_lower_code(t[i])
                == ascii_lower_code(n[i]) by {
                assert(ascii_lower_code(s[i]) == ascii_lower_code(t[i]));
                assert(ascii_lower_code(s[i]) == ascii_lower_code(n[i]));
            }
        }
        if eq_ignore_ascii_case(t, n) {
            assert forall|i: int| 0 <= i < s.len() implies #[trigger] ascii_lower_code(s[i])
                == ascii_lower_code(n[i]) by {
                assert(ascii_lower_code(s[i]) == ascii_lower_code(t[i]));
                assert(ascii_lower_code(t[i]) == ascii_lower_code(n[i]));
            }
        }
    }
}

/// The speech endpoint answers in exactly six formats: pcm, mp3, wav, flac,
/// aac and opus.
pub proof fn lemma_speech_formats(f: AudioFormat)
    ensures
        speech_output(f) is Some <==> (f is Pcm || f is Mp3 || f is Wav || f is Flac || f is Aac
            || f is Opus),
{
}

} // verus!
