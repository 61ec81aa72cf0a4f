use dictation::errors::DictationError;
use dictation::overlay::{get_cursor_x_position, pick_monitor};
use dictation::settings::{AppState, Settings, DEFAULT_HOTKEY, DEFAULT_PROMPT};
use dictation::update::UpdateInfo;

#[test]
fn defaults_match_the_stock_configuration() {
    let settings = Settings::default();
    assert!(settings.openai_api_key.is_none());
    assert_eq!(settings.custom_prompt, DEFAULT_PROMPT);
    assert_eq!(settings.hotkey, DEFAULT_HOTKEY);
    assert_eq!(settings.hotkey, "Control+Space");
    assert!(settings.auto_paste);
    assert_eq!(settings.keywords.len(), 0);
}

#[test]
fn credential_and_prompt_commands_round_trip() {
    let mut state = AppState::default();
    assert!(state.get_api_key().is_none());
    state.set_api_key("key-1".to_string());
    assert_eq!(state.get_api_key().as_deref(), Some("key-1"));

    state.set_custom_prompt("my prompt".to_string());
    assert_eq!(state.get_custom_prompt(), "my prompt");
    let restored = state.reset_prompt_to_default();
    assert_eq!(restored, DEFAULT_PROMPT);
    assert_eq!(state.get_custom_prompt(), DEFAULT_PROMPT);

    state.set_hotkey("Alt+D".to_string());
    assert_eq!(state.get_hotkey(), "Alt+D");
    state.set_auto_paste(false);
    assert!(!state.settings.auto_paste);
}

#[test]
fn save_settings_replaces_the_snapshot() {
    let mut state = AppState::default();
    let mut other = Settings::default();
    other.openai_api_key = Some("k2".to_string());
    other.auto_paste = false;
    state.save_settings(other);
    assert_eq!(state.get_api_key().as_deref(), Some("k2"));
    assert!(!state.get_settings().auto_paste);
}

#[test]
fn error_messages_name_each_failure() {
    assert_eq!(DictationError::AlreadyRecording.message(), "Already recording");
    assert_eq!(DictationError::NoAudioRecorded.message(), "No audio recorded");
    assert_eq!(DictationError::MissingCredential.message(), "OpenAI API key not configured");
    assert_eq!(DictationError::DeviceUnavailable.message(), "No input device available");
    assert_eq!(
        DictationError::UnsupportedSampleFormat.message(),
        "Unsupported sample format",
    );
    assert_eq!(DictationError::EncodingError.message(), "WAV encoding failed");
    assert_eq!(
        DictationError::TranscriptionServiceError("boom".to_string()).message(),
        "Service error: boom",
    );
    assert_eq!(DictationError::ResponseParseError.message(), "Parse error");
    assert_eq!(DictationError::EmptyModelResponse.message(), "No response from AI");
}

#[test]
fn cursor_query_reports_no_position() {
    assert!(get_cursor_x_position().is_none());
}

#[test]
fn monitor_pick_finds_the_first_containing_monitor() {
    let monitors: Vec<(i32, u32)> = vec![(-1920, 1920), (0, 2560), (2560, 1920)];
    assert_eq!(pick_monitor(-100, &monitors), Some(0));
    assert_eq!(pick_monitor(0, &monitors), Some(1));
    assert_eq!(pick_monitor(2600, &monitors), Some(2));
    assert_eq!(pick_monitor(9999, &monitors), None);
    assert_eq!(pick_monitor(5, &Vec::new()), None);
}

#[test]
fn update_info_constructors_mirror_the_check_outcome() {
    let found = UpdateInfo::found("1.2.3".to_string(), Some("notes".to_string()));
    assert!(found.available);
    assert_eq!(found.version.as_deref(), Some("1.2.3"));
    assert_eq!(found.body.as_deref(), Some("notes"));
    let none = UpdateInfo::up_to_date();
    assert!(!none.available);
    assert!(none.version.is_none());
    assert!(none.body.is_none());
}
