use vstd::prelude::*;

use crate::errors::DictationError;
use crate::Sample;

verus! {

/// Sample rate assumed until a capture session fixes the true device rate.
pub const DEFAULT_SAMPLE_RATE: u32 = 44100;

/// The recording state shared between the controller and the capture thread:
/// the flag that tells the capture thread whether to keep producing, the
/// accumulated quantized samples, and the rate they were captured at.
///
/// The decisions of the capture path live here — whether a start is
/// admitted, whether an incoming chunk is kept, when the session rate is
/// fixed. Binding the audio device and running the callback is platform
/// work that the surrounding shell does; it hands chunks to
/// [`AudioState::append_samples`].
pub struct AudioState {
    /// True while a capture session is active.
    pub is_recording: bool,
    /// Samples accumulated by the current or most recent session,
    /// oldest first.
    pub audio_data: Vec<Sample>,
    /// Rate, in Hz, the buffered samples were captured at. Written once
    /// per session, before the first sample arrives.
    pub sample_rate: u32,
}

impl Default for AudioState {
    /// Idle state: not recording, empty buffer, default rate.
    fn default() -> (r: Self)
        ensures
            !r.is_recording,
            r.audio_data@ == Seq::<Sample>::empty(),
            r.sample_rate == DEFAULT_SAMPLE_RATE,
    {
        AudioState {
            is_recording: false,
            audio_data: Vec::new(),
            sample_rate: DEFAULT_SAMPLE_RATE,
        }
    }
}

impl AudioState {
    /// Begins a capture session: rejected outright if one is already
    /// running, otherwise the buffer is cleared and the flag raised.
    /// A rejected start leaves the state exactly as it was.
    pub fn start_recording(&mut self) -> (r: Result<(), DictationError>)
        ensures
            old(self).is_recording ==> (r matches Err(e)
                && e matches DictationError::AlreadyRecording
                && *final(self) == *old(self)),
            !old(self).is_recording ==> r is Ok
                && final(self).is_recording
                && final(self).audio_data@ == Seq::<Sample>::empty()
                && final(self).sample_rate == old(self).sample_rate,
    {
        if self.is_recording {
            return Err(DictationError::AlreadyRecording);
        }
        self.audio_data.clear();
        self.is_recording = true;
        Ok(())
    }

    /// Lowers the flag unconditionally; stopping when idle is a no-op that
    /// still succeeds. The buffer is kept, so the session can still be
    /// transcribed after the stop.
    pub fn stop_recording(&mut self) -> (r: Result<(), DictationError>)
        ensures
            r is Ok,
            !final(self).is_recording,
            final(self).audio_data == old(self).audio_data,
            final(self).sample_rate == old(self).sample_rate,
    {
        self.is_recording = false;
        Ok(())
    }

    /// Whether a capture session is active.
    pub fn is_recording(&self) -> (r: bool)
        ensures
            r == self.is_recording,
    {
        self.is_recording
    }

    /// Fixes the session's capture rate; called once per session by the
    /// capture path before any sample is appended, so the encoder later
    /// sees the true device rate rather than a default.
    pub fn set_sample_rate(&mut self, rate: u32)
        ensures
            final(self).sample_rate == rate,
            final(self).is_recording == old(self).is_recording,
            final(self).audio_data == old(self).audio_data,
    {
        self.sample_rate = rate;
    }

    /// One hardware callback's worth of samples. The chunk is kept only
    /// while the session is active; after a stop, incoming samples are
    /// discarded rather than buffered.
    pub fn append_samples(&mut self, chunk: &Vec<Sample>)
        ensures
            old(self).is_recording ==> final(self).audio_data@
                == old(self).audio_data@ + chunk@,
            !old(self).is_recording ==> *final(self) == *old(self),
            final(self).is_recording == old(self).is_recording,
            final(self).sample_rate == old(self).sample_rate,
    {
        if !self.is_recording {
            return;
        }
        let ghost orig: Seq<Sample> = self.audio_data@;
        let mut j: usize = 0;
        while j < chunk.len()
            invariant
                j <= chunk.len(),
                self.audio_data@ == orig + chunk@.take(j as int),
                self.is_recording == old(self).is_recording,
                self.sample_rate == old(self).sample_rate,
            decreases chunk.len() - j,
        {
            self.audio_data.push(chunk[j]);
            proof {
                assert(chunk@.take(j + 1) == chunk@.take(j as int).push(chunk@[j as int]));
            }
            j = j + 1;
        }
        proof {
            assert(chunk@.take(chunk@.len() as int) == chunk@);
        }
    }
}

} // verus!
