//! Core of a voice-dictation utility: the recording state machine, the
//! WAV encoder for captured samples, keyword substitution, and the two-stage
//! remote transcription/reformatting pipeline.
use vstd::prelude::*;

pub mod errors;
pub mod keywords;
pub mod overlay;
pub mod pipeline;
pub mod recorder;
pub mod settings;
pub mod update;
pub mod wav;

verus! {

/// Quantized PCM sample: the signed 16-bit value a normalized amplitude
/// maps to in the encoded audio.
pub type Sample = i16;

} // verus!
