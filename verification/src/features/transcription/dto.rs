use vstd::prelude::*;

verus! {

/// The body of a transcription answer.
pub struct TranscriptionResponseBody {
    pub text: String,
}

impl TranscriptionResponseBody {
    pub fn new(text: String) -> (b: Self)
        ensures
            b.text == text,
    {
        TranscriptionResponseBody { text }
    }
}

} // verus!
