use dictation::errors::DictationError;
use dictation::keywords::KeywordMap;
use dictation::pipeline::{
    build_reformat_request, prepare_transcription, process_chat_response, process_stt_response,
    TranscriptionResult, CHAT_URL, STT_URL,
};
use dictation::recorder::AudioState;
use dictation::settings::{AppState, Settings};

fn settings_with_key() -> Settings {
    let mut state = AppState::default();
    state.set_api_key("test-key".to_string());
    state.get_settings()
}

#[test]
fn transcribe_with_empty_buffer_is_no_audio_recorded() {
    let settings = settings_with_key();
    let audio = AudioState::default();
    let r = prepare_transcription(&settings, &audio);
    assert!(matches!(r, Err(DictationError::NoAudioRecorded)));
}

#[test]
fn transcribe_without_credential_is_missing_credential() {
    let mut state = AppState::default();
    // a non-empty buffer does not help: the credential is checked first
    let mut audio = AudioState::default();
    audio.start_recording().unwrap();
    audio.append_samples(&vec![1, 2, 3]);
    audio.stop_recording().unwrap();
    let r = prepare_transcription(&state.get_settings(), &audio);
    assert!(matches!(r, Err(DictationError::MissingCredential)));
    // keywords do not change the outcome either
    state.add_keyword("foo".to_string(), "bar".to_string());
    let r2 = prepare_transcription(&state.get_settings(), &audio);
    assert!(matches!(r2, Err(DictationError::MissingCredential)));
}

#[test]
fn credential_is_checked_before_the_buffer() {
    // with neither a credential nor audio, the credential failure wins
    let state = AppState::default();
    let audio = AudioState::default();
    let r = prepare_transcription(&state.get_settings(), &audio);
    assert!(matches!(r, Err(DictationError::MissingCredential)));
}

#[test]
fn unencodable_buffer_fails_the_preparation() {
    let settings = settings_with_key();
    let mut audio = AudioState::default();
    audio.start_recording().unwrap();
    // a rate whose byte rate overflows the container's 32-bit field
    audio.set_sample_rate(0x8000_0000);
    audio.append_samples(&vec![1]);
    audio.stop_recording().unwrap();
    let r = prepare_transcription(&settings, &audio);
    assert!(matches!(r, Err(DictationError::EncodingError)));
}

#[test]
fn prepared_upload_carries_the_wav_and_fixed_fields() {
    let settings = settings_with_key();
    let mut audio = AudioState::default();
    audio.start_recording().unwrap();
    audio.set_sample_rate(16000);
    audio.append_samples(&vec![100, -100]);
    audio.stop_recording().unwrap();
    let q = prepare_transcription(&settings, &audio).expect("prepared");
    assert_eq!(q.url, STT_URL);
    assert_eq!(q.auth_bearer, "Bearer test-key");
    assert_eq!(q.model, "whisper-1");
    assert_eq!(q.response_format, "json");
    assert_eq!(q.file_name, "audio.wav");
    assert_eq!(q.mime_type, "audio/wav");
    assert_eq!(q.wav_data, dictation::wav::create_wav(&vec![100, -100], 16000).unwrap());
}

#[test]
fn simulated_two_stage_run_returns_both_texts() {
    let raw = process_stt_response(200, "{\"text\":\"hello world\"}".to_string())
        .expect("transcribed");
    assert_eq!(raw, "hello world");
    let chat_body = "{\"choices\":[{\"message\":{\"role\":\"assistant\",\
                     \"content\":\"Hello, world.\"}}]}";
    let formatted = process_chat_response(200, chat_body.to_string()).expect("formatted");
    assert_eq!(formatted, "Hello, world.");
    let result = TranscriptionResult::new(raw, formatted);
    assert_eq!(result.raw_text, "hello world");
    assert_eq!(result.formatted_text, "Hello, world.");
}

#[test]
fn non_success_status_carries_the_body_verbatim() {
    let r = process_stt_response(404, "speech endpoint down".to_string());
    match r {
        Err(DictationError::TranscriptionServiceError(body)) => {
            assert_eq!(body, "speech endpoint down");
        },
        other => panic!("unexpected: {:?}", other),
    }
    let r2 = process_chat_response(500, "chat endpoint down".to_string());
    match r2 {
        Err(DictationError::TranscriptionServiceError(body)) => {
            assert_eq!(body, "chat endpoint down");
        },
        other => panic!("unexpected: {:?}", other),
    }
}

#[test]
fn unparseable_success_bodies_are_parse_errors() {
    let r = process_stt_response(200, "not json at all".to_string());
    assert!(matches!(r, Err(DictationError::ResponseParseError)));
    let r2 = process_stt_response(200, "{\"no_text_field\":1}".to_string());
    assert!(matches!(r2, Err(DictationError::ResponseParseError)));
    let r3 = process_chat_response(200, "{}".to_string());
    assert!(matches!(r3, Err(DictationError::ResponseParseError)));
    let r4 = process_chat_response(200, "{\"choices\":[{\"message\":{}}]}".to_string());
    assert!(matches!(r4, Err(DictationError::ResponseParseError)));
}

#[test]
fn empty_choice_list_is_empty_model_response() {
    let r = process_chat_response(200, "{\"choices\":[]}".to_string());
    assert!(matches!(r, Err(DictationError::EmptyModelResponse)));
}

#[test]
fn reformat_request_substitutes_and_enumerates_keywords() {
    let mut map = KeywordMap::new();
    map.insert(&"foo".to_string(), "bar".to_string());
    let q = build_reformat_request(
        &"test-key".to_string(),
        &"Foo said foo".to_string(),
        &"Fix grammar.".to_string(),
        &map,
    );
    assert_eq!(q.url, CHAT_URL);
    assert_eq!(q.auth_bearer, "Bearer test-key");
    assert_eq!(q.user_text, "bar said bar");
    assert_eq!(
        q.system_prompt,
        "Fix grammar.\n\nIMPORTANT: Apply these exact keyword replacements \
         (case-insensitive):\n\"foo\" -> \"bar\"",
    );
    let expected_body = format!(
        "{{\"model\":\"gpt-5.2\",\"messages\":[{{\"role\":\"system\",\"content\":\"{}\"}},\
         {{\"role\":\"user\",\"content\":\"{}\"}}],\"temperature\":0.3}}",
        "Fix grammar.\\n\\nIMPORTANT: Apply these exact keyword replacements \
         (case-insensitive):\\n\\\"foo\\\" -> \\\"bar\\\"",
        "bar said bar",
    );
    assert_eq!(q.body, expected_body);
}

#[test]
fn reformat_request_without_keywords_keeps_prompt_untouched() {
    let map = KeywordMap::new();
    let q = build_reformat_request(
        &"k".to_string(),
        &"some words".to_string(),
        &"Prompt only".to_string(),
        &map,
    );
    assert_eq!(q.system_prompt, "Prompt only");
    assert_eq!(q.user_text, "some words");
}

#[test]
fn request_body_is_parseable_json_with_escapes_applied() {
    let map = KeywordMap::new();
    let q = build_reformat_request(
        &"k".to_string(),
        &"line one\nline \"two\"\\".to_string(),
        &"sys\tprompt".to_string(),
        &map,
    );
    let v: serde_json::Value = serde_json::from_str(&q.body).expect("body is valid JSON");
    assert_eq!(v["model"], "gpt-5.2");
    assert_eq!(v["messages"][0]["role"], "system");
    assert_eq!(v["messages"][0]["content"], "sys\tprompt");
    assert_eq!(v["messages"][1]["role"], "user");
    assert_eq!(v["messages"][1]["content"], "line one\nline \"two\"\\");
    assert_eq!(v["temperature"], 0.3);
}
