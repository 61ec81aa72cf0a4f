use vstd::prelude::*;

verus! {

/// Every failure the dictation core can report. Nothing here aborts the
/// process: each variant is a value the caller can act on.
#[derive(Debug, Clone)]
pub enum DictationError {
    /// A capture session is already active; starting another is rejected.
    AlreadyRecording,
    /// Transcription was requested while the sample buffer is empty.
    NoAudioRecorded,
    /// No API credential is configured.
    MissingCredential,
    /// No default input device could be acquired for capture.
    DeviceUnavailable,
    /// The input device offered a sample encoding the capture path cannot use.
    UnsupportedSampleFormat,
    /// The sample buffer could not be encoded as a WAV container.
    EncodingError,
    /// A remote endpoint answered with a non-success status; carries the
    /// response body verbatim.
    TranscriptionServiceError(String),
    /// A success response body did not have the expected shape.
    ResponseParseError,
    /// The reformatting endpoint returned no candidate output.
    EmptyModelResponse,
}

impl DictationError {
    /// What `message` returns for each variant.
    pub open spec fn message_spec(&self) -> Seq<char> {
        match self {
            DictationError::AlreadyRecording => "Already recording"@,
            DictationError::NoAudioRecorded => "No audio recorded"@,
            DictationError::MissingCredential => "OpenAI API key not configured"@,
            DictationError::DeviceUnavailable => "No input device available"@,
            DictationError::UnsupportedSampleFormat => "Unsupported sample format"@,
            DictationError::EncodingError => "WAV encoding failed"@,
            DictationError::TranscriptionServiceError(body) => "Service error: "@ + body@,
            DictationError::ResponseParseError => "Parse error"@,
            DictationError::EmptyModelResponse => "No response from AI"@,
        }
    }

    /// A human-readable description of the failure.
    pub fn message(&self) -> (r: String)
        ensures
            r@ == self.message_spec(),
    {
        match self {
            DictationError::AlreadyRecording => String::from_str("Already recording"),
            DictationError::NoAudioRecorded => String::from_str("No audio recorded"),
            DictationError::MissingCredential => String::from_str("OpenAI API key not configured"),
            DictationError::DeviceUnavailable => String::from_str("No input device available"),
            DictationError::UnsupportedSampleFormat => String::from_str("Unsupported sample format"),
            DictationError::EncodingError => String::from_str("WAV encoding failed"),
            DictationError::TranscriptionServiceError(body) => {
                let mut r = String::from_str("Service error: ");
                r.append(body.as_str());
                r
            },
            DictationError::ResponseParseError => String::from_str("Parse error"),
            DictationError::EmptyModelResponse => String::from_str("No response from AI"),
        }
    }
}

} // verus!
