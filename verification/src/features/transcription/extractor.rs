//! Reading the multipart form of a transcription request.
//!
//! The program walks the form's fields; for each one it asks
//! [`classify_field`] what the field is, reads its content accordingly and
//! hands it to a [`TranscriptionFormBuilder`], which decides what the form
//! holds once all fields are read.
use vstd::prelude::*;

use crate::domain::audio::format::{format_name, lemma_name_round_trip, parse_format};
use crate::domain::audio::AudioFormat;
use crate::domain::error::{AppError, AppErrorView, AppResult};
use crate::domain::text::{
    concat, file_extension, file_extension_spec, lemma_extension_of_simple_name, str_eq,
};

verus! {

/// An uploaded audio file.
pub struct UploadedAudio {
    pub bytes: Vec<u8>,
    pub format: AudioFormat,
}

/// A complete transcription form.
pub struct TranscriptionForm {
    pub audio: UploadedAudio,
    pub model: String,
    /// A binary32 temperature, as its bit pattern.
    pub temperature: Option<u32>,
}

/// What a form field is.
#[derive(Debug, Clone, Copy, PartialEq, Eq, Structural)]
pub enum FieldKind {
    /// The audio file, whose extension names this format.
    File(AudioFormat),
    /// The model name.
    Model,
    /// The sampling temperature.
    Temperature,
    /// A field the proxy does not use.
    Ignored,
}

/// Which part of the form could not be read.
#[derive(Debug, Clone, Copy, PartialEq, Eq, Structural)]
pub enum ReadStage {
    Field,
    File,
    Model,
    Temperature,
}

/// Collects the fields of a transcription form.
pub struct TranscriptionFormBuilder {
    pub audio: Option<UploadedAudio>,
    pub model: String,
    pub temperature: Option<u32>,
}

/// The view of an optional text.
pub open spec fn opt_str_view(s: Option<&str>) -> Option<Seq<char>> {
    match s {
        Some(s) => Some(s@),
        None => None,
    }
}

/// What a field with this name (and, for a file, this file name) is, or why
/// the form is rejected.
pub open spec fn field_outcome(name: Option<Seq<char>>, file_name: Option<Seq<char>>) -> Result<
    FieldKind,
    AppErrorView,
> {
    match name {
        None => Err(AppErrorView::MissingField("field name"@)),
        Some(n) => if n == "file"@ {
            match file_name {
                None => Err(AppErrorView::MissingField("file name"@)),
                Some(f) => match file_extension_spec(f) {
                    None => Err(AppErrorView::BadRequest("missing file extension"@)),
                    Some(ext) => match parse_format(ext) {
                        None => Err(AppErrorView::UnsupportedFormat(ext)),
                        Some(fmt) => Ok(FieldKind::File(fmt)),
                    },
                },
            }
        } else if n == "model"@ {
            Ok(FieldKind::Model)
        } else if n == "temperature"@ {
            Ok(FieldKind::Temperature)
        } else {
            Ok(FieldKind::Ignored)
        },
    }
}

/// The prefix of the message for a field that could not be read.
pub open spec fn read_failure_prefix(stage: ReadStage) -> Seq<char> {
    match stage {
        ReadStage::Field => "failed to read field: "@,
        ReadStage::File => "failed to read file: "@,
        ReadStage::Model => "failed to read model: "@,
        ReadStage::Temperature => "failed to read temperature: "@,
    }
}

/// What a field is: `file` (whose file name must have the extension of a
/// known format), `model`, `temperature`, or another, ignored field.
pub fn classify_field(name: Option<&str>, file_name: Option<&str>) -> (r: AppResult<FieldKind>)
    ensures
        match r {
            Ok(k) => field_outcome(opt_str_view(name), opt_str_view(file_name)) == Ok::<
                FieldKind,
                AppErrorView,
            >(k),
            Err(e) => field_outcome(opt_str_view(name), opt_str_view(file_name)) == Err::<
                FieldKind,
                AppErrorView,
            >(e@),
        },
{
    let name = match name {
        Some(n) => n,
        None => {
            return Err(AppError::MissingField("field name"));
        },
    };
    if str_eq(name, "file") {
        let file_name = match file_name {
            Some(f) => f,
            None => {
                return Err(AppError::MissingField("file name"));
            },
        };
        let ext = match file_extension(file_name) {
            Some(e) => e,
            None => {
                return Err(AppError::BadRequest(String::from_str("missing file extension")));
            },
        };
        match AudioFormat::from_str(ext.as_str()) {
            Ok(f) => Ok(FieldKind::File(f)),
            Err(_) => Err(AppError::UnsupportedFormat(ext)),
        }
    } else if str_eq(name, "model") {
        Ok(FieldKind::Model)
    } else if str_eq(name, "temperature") {
        Ok(FieldKind::Temperature)
    } else {
        Ok(FieldKind::Ignored)
    }
}

/// The error for a field whose content could not be read; `detail` is the
/// reader's own message.
pub fn read_failure(stage: ReadStage, detail: &str) -> (e: AppError)
    ensures
        e@ == AppErrorView::BadRequest(read_failure_prefix(stage) + detail@),
{
    let prefix = match stage {
        ReadStage::Field => "failed to read field: ",
        ReadStage::File => "failed to read file: ",
        ReadStage::Model => "failed to read model: ",
        ReadStage::Temperature => "failed to read temperature: ",
    };
    AppError::BadRequest(concat(prefix, detail))
}

impl UploadedAudio {
    pub fn new(bytes: Vec<u8>, format: AudioFormat) -> (a: Self)
        ensures
            a.bytes@ == bytes@,
            a.format == format,
    {
        UploadedAudio { bytes, format }
    }
}

impl TranscriptionForm {
    pub fn new(audio: UploadedAudio, model: String, temperature: Option<u32>) -> (f: Self)
        ensures
            f.audio == audio,
            f.model == model,
            f.temperature == temperature,
    {
        TranscriptionForm { audio, model, temperature }
    }
}

impl TranscriptionFormBuilder {
    /// An empty form whose model is `default_model` until a field names one.
    pub fn new(default_model: String) -> (b: Self)
        ensures
            b.audio is None,
            b.model == default_model,
            b.temperature is None,
    {
        TranscriptionFormBuilder { audio: None, model: default_model, temperature: None }
    }

    /// Records the audio file; a later file replaces an earlier one.
    pub fn accept_file(&mut self, bytes: Vec<u8>, format: AudioFormat)
        ensures
            final(self).audio matches Some(a) && a.bytes@ == bytes@ && a.format == format,
            final(self).model == old(self).model,
            final(self).temperature == old(self).temperature,
    {
        self.audio = Some(UploadedAudio::new(bytes, format));
    }

    /// Records the model; an empty text leaves the model as it was.
    pub fn accept_model(&mut self, text: String)
        ensures
            final(self).model@ == if text@.len() == 0 {
                old(self).model@
            } else {
                text@
            },
            final(self).audio == old(self).audio,
            final(self).temperature == old(self).temperature,
    {
        if !text.as_str().is_empty() {
            self.model = text;
        }
    }

    /// Records the temperature: `parsed` is the text read as a binary32
    /// number (its bit pattern), `None` when the text is not a number, which
    /// rejects the form.
    pub fn accept_temperature(&mut self, text: String, parsed: Option<u32>) -> (r: AppResult<()>)
        ensures
            match parsed {
                Some(bits) => r is Ok && final(self).temperature == Some(bits),
                None => r matches Err(e) && e@ == AppErrorView::BadRequest(
                    "invalid temperature: "@ + text@,
                ) && final(self).temperature == old(self).temperature,
            },
            final(self).audio == old(self).audio,
            final(self).model == old(self).model,
    {
        match parsed {
            Some(bits) => {
                self.temperature = Some(bits);
                Ok(())
            },
            None => Err(AppError::BadRequest(concat("invalid temperature: ", text.as_str()))),
        }
    }

    /// The form once every field is read; it must hold an audio file.
    pub fn finish(self) -> (r: AppResult<TranscriptionForm>)
        ensures
            match self.audio {
                Some(a) => r matches Ok(f) && f.audio == a && f.model == self.model
                    && f.temperature == self.temperature,
                None => r matches Err(e) && e@ == AppErrorView::MissingField("file"@),
            },
    {
        match self.audio {
            Some(audio) => Ok(TranscriptionForm::new(audio, self.model, self.temperature)),
            None => Err(AppError::MissingField("file")),
        }
    }
}

/// A form is never rejected as an internal error: every way reading a field
/// can fail is a 400.
pub proof fn lemma_form_errors_are_client_errors(name: Option<Seq<char>>, file_name: Option<Seq<char>>)
    ensures
        field_outcome(name, file_name) matches Err(e) ==> !(e is Internal),
{
}

/// An uploaded file is taken for the format its extension names, in any
/// case: a file field whose file name is `stem.<name of f>` reads as `f`,
/// for every format `f` (given a plain stem: not empty, no `/`).
pub proof fn lemma_upload_format_from_extension(stem: Seq<char>, f: AudioFormat)
    requires
        stem.len() > 0,
        !stem.contains('/'),
    ensures
        field_outcome(Some("file"@), Some(stem + seq!['.'] + format_name(f))) == Ok::<
            FieldKind,
            AppErrorView,
        >(FieldKind::File(f)),
{
    reveal_strlit("mp3");
    reveal_strlit("wav");
    reveal_strlit("flac");
    reveal_strlit("m4a");
    reveal_strlit("ogg");
    reveal_strlit("webm");
    reveal_strlit("mp4");
    reveal_strlit("mpeg");
    reveal_strlit("mpga");
    reveal_strlit("aac");
    reveal_strlit("opus");
    reveal_strlit("pcm");
    let n = format_name(f);
    assert(!n.contains('/') && !n.contains('.')) by {
        if n.contains('/') || n.contains('.') {
            let j = choose|j: int| 0 <= j < n.len() && (n[j] == '/' || n[j] == '.');
            assert(n[j] != '/' && n[j] != '.');
        }
    }
    lemma_extension_of_simple_name(stem, n);
    lemma_name_round_trip(f);
}

} // verus!
