use dictation::errors::DictationError;
use dictation::recorder::AudioState;

#[test]
fn start_twice_fails_with_already_recording() {
    let mut state = AudioState::default();
    assert!(state.start_recording().is_ok());
    assert!(state.is_recording());
    let second = state.start_recording();
    assert!(matches!(second, Err(DictationError::AlreadyRecording)));
    // the rejected call leaves the flag (and everything else) unchanged
    assert!(state.is_recording());
}

#[test]
fn stop_when_idle_is_a_successful_no_op() {
    let mut state = AudioState::default();
    assert!(!state.is_recording());
    assert!(state.stop_recording().is_ok());
    assert!(!state.is_recording());
}

#[test]
fn start_clears_previous_session() {
    let mut state = AudioState::default();
    assert!(state.start_recording().is_ok());
    state.set_sample_rate(48000);
    state.append_samples(&vec![1, 2, 3]);
    assert!(state.stop_recording().is_ok());
    assert_eq!(state.audio_data, vec![1, 2, 3]);
    // the buffer survives the stop so the session can be transcribed,
    // and the next start clears it
    assert!(state.start_recording().is_ok());
    assert!(state.audio_data.is_empty());
    assert_eq!(state.sample_rate, 48000);
}

#[test]
fn samples_after_stop_are_discarded() {
    let mut state = AudioState::default();
    assert!(state.start_recording().is_ok());
    state.append_samples(&vec![10, 20]);
    assert!(state.stop_recording().is_ok());
    state.append_samples(&vec![30, 40]);
    assert_eq!(state.audio_data, vec![10, 20]);
}

#[test]
fn appends_accumulate_in_order() {
    let mut state = AudioState::default();
    assert!(state.start_recording().is_ok());
    state.append_samples(&vec![1, 2]);
    state.append_samples(&vec![3]);
    state.append_samples(&vec![]);
    state.append_samples(&vec![4, 5]);
    assert_eq!(state.audio_data, vec![1, 2, 3, 4, 5]);
}
