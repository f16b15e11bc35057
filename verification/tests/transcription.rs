use audio_capture::client::{
    file_name_of, file_part_metadata, form_fields, transcription_request, AppState,
    AudioResponseFormat, AudioTranscriptionParameters, Client,
};

#[test]
fn client_keeps_its_api_key() {
    let client = Client::new("SECRET-REDACTED".to_string());
    assert_eq!(client.api_key().as_str(), "SECRET-REDACTED");
    let state = AppState {
        openai_client: client,
    };
    assert_eq!(state.openai_client.api_key().as_str(), "SECRET-REDACTED");
}

#[test]
fn response_format_wire_names() {
    assert_eq!(AudioResponseFormat::Json.to_string(), "json");
    assert_eq!(AudioResponseFormat::Text.to_string(), "text");
    assert_eq!(AudioResponseFormat::Srt.to_string(), "srt");
    assert_eq!(AudioResponseFormat::VerboseJson.to_string(), "verbose_json");
    assert_eq!(AudioResponseFormat::Vtt.to_string(), "vtt");
}

#[test]
fn form_fields_carry_every_present_parameter_in_order() {
    let parameters = AudioTranscriptionParameters {
        path: "/tmp/recorded.wav".to_string(),
        model: "whisper-1".to_string(),
        prompt: Some("a phone call".to_string()),
        language: Some("en".to_string()),
        response_format: Some(AudioResponseFormat::VerboseJson),
        temperature: Some("0.2".to_string()),
    };
    let fields = form_fields(parameters);
    let expected = vec![
        ("model".to_string(), "whisper-1".to_string()),
        ("prompt".to_string(), "a phone call".to_string()),
        ("language".to_string(), "en".to_string()),
        ("response_format".to_string(), "verbose_json".to_string()),
        ("temperature".to_string(), "0.2".to_string()),
    ];
    assert_eq!(fields, expected);
}

#[test]
fn form_fields_omit_absent_parameters() {
    let parameters = AudioTranscriptionParameters {
        path: "/tmp/recorded.wav".to_string(),
        model: "whisper-1".to_string(),
        prompt: None,
        language: None,
        response_format: None,
        temperature: None,
    };
    let fields = form_fields(parameters);
    assert_eq!(
        fields,
        vec![("model".to_string(), "whisper-1".to_string())]
    );
}

#[test]
fn transcription_request_uses_the_fixed_settings() {
    let r = transcription_request("/tmp/recorded.wav".to_string());
    assert_eq!(r.path, "/tmp/recorded.wav");
    assert_eq!(r.model, "whisper-1");
    assert!(r.prompt.is_none());
    assert!(r.language.is_none());
    assert_eq!(r.response_format, Some(AudioResponseFormat::Text));
    assert!(r.temperature.is_none());
    let fields = form_fields(r);
    assert_eq!(
        fields,
        vec![
            ("model".to_string(), "whisper-1".to_string()),
            ("response_format".to_string(), "text".to_string()),
        ]
    );
}

#[test]
fn file_name_is_the_component_after_the_last_slash() {
    assert_eq!(
        file_name_of("/tmp/recorded.wav").as_deref(),
        Some("recorded.wav")
    );
    assert_eq!(file_name_of("recorded.wav").as_deref(), Some("recorded.wav"));
    assert_eq!(file_name_of("a/b/c.ogg").as_deref(), Some("c.ogg"));
}

#[test]
fn paths_without_a_file_name_are_rejected() {
    assert_eq!(file_name_of(""), None);
    assert_eq!(file_name_of("/tmp/"), None);
    assert_eq!(file_name_of("."), None);
    assert_eq!(file_name_of(".."), None);
    assert_eq!(file_name_of("/tmp/.."), None);
}

#[test]
fn metadata_guesses_the_mime_type_from_the_extension() {
    let (name, mime) = file_part_metadata("/tmp/recorded.wav").unwrap();
    assert_eq!(name, "recorded.wav");
    assert_eq!(mime, "audio/wav");
    let (name, mime) = file_part_metadata("notes.txt").unwrap();
    assert_eq!(name, "notes.txt");
    assert_eq!(mime, "text/plain");
    let (_, mime) = file_part_metadata("mystery.zzz").unwrap();
    assert_eq!(mime, "application/octet-stream");
}

#[test]
fn metadata_for_a_directory_path_is_none() {
    assert_eq!(file_part_metadata("/tmp/"), None);
}
