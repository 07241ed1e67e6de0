use hearthly::error::AudioError;

#[test]
fn each_error_has_its_message() {
    assert_eq!(AudioError::Io("disk full".to_string()).message(), "IO error: disk full");
    assert_eq!(
        AudioError::Decode("Invalid padding".to_string()).message(),
        "Base64 decode error: Invalid padding"
    );
    assert_eq!(
        AudioError::Transcode("no such codec".to_string()).message(),
        "FFmpeg error: no such codec"
    );
    assert_eq!(AudioError::InvalidLanguage.message(), "Invalid language");
    assert_eq!(
        AudioError::MissingCredential("Missing OPENAI_API_KEY".to_string()).message(),
        "OpenAI API error: Missing OPENAI_API_KEY"
    );
    assert_eq!(
        AudioError::Transport("connection refused".to_string()).message(),
        "HTTP error: connection refused"
    );
    assert_eq!(
        AudioError::Provider("Whisper API failed: busy".to_string()).message(),
        "OpenAI API error: Whisper API failed: busy"
    );
    assert_eq!(
        AudioError::MalformedResponse("No transcript in response".to_string()).message(),
        "OpenAI API error: No transcript in response"
    );
}

#[test]
fn empty_detail_leaves_the_prefix() {
    assert_eq!(AudioError::Transcode(String::new()).message(), "FFmpeg error: ");
}

#[test]
fn only_an_invalid_language_is_the_clients_fault() {
    assert!(AudioError::InvalidLanguage.is_client_error());
    assert_eq!(AudioError::InvalidLanguage.status_code(), 400);
    let others = [
        AudioError::Io("x".to_string()),
        AudioError::Decode("x".to_string()),
        AudioError::Transcode("x".to_string()),
        AudioError::MissingCredential("x".to_string()),
        AudioError::Transport("x".to_string()),
        AudioError::Provider("x".to_string()),
        AudioError::MalformedResponse("x".to_string()),
    ];
    for error in others {
        assert!(!error.is_client_error());
        assert_eq!(error.status_code(), 500);
    }
}
