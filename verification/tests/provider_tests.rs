use hearthly::error::AudioError;
use hearthly::provider::{
    chat_outcome, chat_request, missing_credential_error, provider_failure_error, speech_outcome,
    speech_request, status_is_success, transcription_outcome, transcription_request, ChatRequest,
    ProviderReply, SpeechRequest, TranscriptionRequest,
};

fn answer(status: u16, body: &[u8]) -> ProviderReply {
    ProviderReply::Answered { status, body: body.to_vec() }
}

fn missing() -> AudioError {
    AudioError::MissingCredential(
        "Missing OPENAI_API_KEY: environment variable not found".to_string(),
    )
}

#[test]
fn statuses_from_200_to_299_are_successes() {
    for status in [200u16, 201, 204, 250, 299] {
        assert!(status_is_success(status));
    }
    for status in [0u16, 100, 199, 300, 301, 400, 401, 404, 429, 500, 503, 999, u16::MAX] {
        assert!(!status_is_success(status));
    }
}

#[test]
fn transcription_upload_is_laid_out() {
    let request = transcription_request(Some("sk-test"), "hi", vec![1, 2, 3]).unwrap();
    assert_eq!(
        request,
        TranscriptionRequest {
            url: "https://api.openai.com/v1/audio/transcriptions".to_string(),
            authorization: "Bearer sk-test".to_string(),
            model: "whisper-1".to_string(),
            language: "hi".to_string(),
            file_name: "audio.wav".to_string(),
            mime_type: "audio/wav".to_string(),
            audio: vec![1, 2, 3],
        }
    );
}

#[test]
fn transcription_needs_a_language_then_a_credential() {
    assert_eq!(transcription_request(None, "xx", vec![]), Err(AudioError::InvalidLanguage));
    assert_eq!(transcription_request(None, "", vec![1]), Err(AudioError::InvalidLanguage));
    assert_eq!(transcription_request(Some("k"), "xx", vec![]), Err(AudioError::InvalidLanguage));
    assert_eq!(transcription_request(Some("k"), "", vec![]), Err(AudioError::InvalidLanguage));
    for code in ["en", "hi", "pa"] {
        assert_eq!(transcription_request(None, code, vec![]), Err(missing()));
    }
}

#[test]
fn an_empty_credential_is_a_credential() {
    let request = transcription_request(Some(""), "en", vec![]).unwrap();
    assert_eq!(request.authorization, "Bearer ");
}

#[test]
fn chat_request_is_laid_out() {
    let request =
        chat_request(Some("sk-test"), "be kind".to_string(), "hello".to_string()).unwrap();
    assert_eq!(
        request,
        ChatRequest {
            url: "https://api.openai.com/v1/chat/completions".to_string(),
            authorization: "Bearer sk-test".to_string(),
            model: "gpt-4o-mini".to_string(),
            system: "be kind".to_string(),
            user: "hello".to_string(),
            temperature_tenths: 7,
        }
    );
}

#[test]
fn chat_needs_a_credential() {
    assert_eq!(chat_request(None, "s".to_string(), "u".to_string()), Err(missing()));
}

#[test]
fn speech_request_is_laid_out() {
    let request = speech_request(Some("sk-test"), "hi there".to_string(), "en").unwrap();
    assert_eq!(
        request,
        SpeechRequest {
            url: "https://api.openai.com/v1/audio/speech".to_string(),
            authorization: "Bearer sk-test".to_string(),
            model: "tts-1".to_string(),
            input: "hi there".to_string(),
            voice: "alloy".to_string(),
            response_format: "mp3".to_string(),
        }
    );
}

#[test]
fn speech_picks_the_voice_of_the_language() {
    assert_eq!(speech_request(Some("k"), String::new(), "en").unwrap().voice, "alloy");
    assert_eq!(speech_request(Some("k"), String::new(), "hi").unwrap().voice, "nova");
    assert_eq!(speech_request(Some("k"), String::new(), "pa").unwrap().voice, "nova");
}

#[test]
fn speech_needs_a_language_then_a_credential() {
    assert_eq!(
        speech_request(None, "hi there".to_string(), "xx"),
        Err(AudioError::InvalidLanguage)
    );
    assert_eq!(speech_request(None, "t".to_string(), "de"), Err(AudioError::InvalidLanguage));
    assert_eq!(
        speech_request(Some("k"), "t".to_string(), "de"),
        Err(AudioError::InvalidLanguage)
    );
    for code in ["en", "hi", "pa"] {
        assert_eq!(speech_request(None, "t".to_string(), code), Err(missing()));
    }
}

#[test]
fn missing_credential_has_its_message() {
    assert_eq!(missing_credential_error(), missing());
    assert_eq!(
        missing_credential_error().message(),
        "OpenAI API error: Missing OPENAI_API_KEY: environment variable not found"
    );
}

#[test]
fn provider_failure_holds_the_label_and_the_body() {
    assert_eq!(
        provider_failure_error("TTS API failed: ", b"{\"error\": \"overloaded\"}"),
        AudioError::Provider("TTS API failed: {\"error\": \"overloaded\"}".to_string())
    );
    assert_eq!(
        provider_failure_error("Chat API failed: ", &[0xC3]),
        AudioError::Provider("Chat API failed: \u{FFFD}".to_string())
    );
}

#[test]
fn a_transcription_answer_gives_the_transcript() {
    assert_eq!(
        transcription_outcome(answer(200, br#"{"text": "hello"}"#)),
        Ok("hello".to_string())
    );
    assert_eq!(
        transcription_outcome(answer(299, br#"{"text": "hello"}"#)),
        Ok("hello".to_string())
    );
}

#[test]
fn a_transcription_failure_holds_the_providers_body() {
    assert_eq!(
        transcription_outcome(answer(500, b"internal error")),
        Err(AudioError::Provider("Whisper API failed: internal error".to_string()))
    );
    assert_eq!(
        transcription_outcome(answer(401, br#"{"text": "hello"}"#)),
        Err(AudioError::Provider("Whisper API failed: {\"text\": \"hello\"}".to_string()))
    );
    assert_eq!(
        transcription_outcome(answer(199, b"")),
        Err(AudioError::Provider("Whisper API failed: ".to_string()))
    );
    assert_eq!(
        transcription_outcome(answer(300, b"")),
        Err(AudioError::Provider("Whisper API failed: ".to_string()))
    );
}

#[test]
fn a_transcription_answer_without_text_is_malformed() {
    for body in [&br#"{"transcript": "hello"}"#[..], br#"{"text": 1}"#, b"", b"<html>"] {
        assert_eq!(
            transcription_outcome(answer(200, body)),
            Err(AudioError::MalformedResponse("No transcript in response".to_string()))
        );
    }
}

#[test]
fn an_unreachable_provider_is_a_transport_error() {
    let reply = || ProviderReply::Unreachable("connection reset".to_string());
    let error = || AudioError::Transport("connection reset".to_string());
    assert_eq!(transcription_outcome(reply()), Err(error()));
    assert_eq!(chat_outcome(reply()), Err(error()));
    assert_eq!(speech_outcome(reply()), Err(error()));
}

#[test]
fn a_chat_answer_gives_the_first_completion() {
    let body = br#"{"choices": [{"message": {"role": "assistant", "content": "hi there"}}]}"#;
    assert_eq!(chat_outcome(answer(200, body)), Ok("hi there".to_string()));
}

#[test]
fn a_chat_failure_holds_the_providers_body() {
    assert_eq!(
        chat_outcome(answer(429, b"slow down")),
        Err(AudioError::Provider("Chat API failed: slow down".to_string()))
    );
}

#[test]
fn a_chat_answer_without_completion_is_malformed() {
    for body in [&br#"{"choices": []}"#[..], br#"{"text": "hi"}"#, b"not json"] {
        assert_eq!(
            chat_outcome(answer(200, body)),
            Err(AudioError::MalformedResponse("No response text in Chat API".to_string()))
        );
    }
}

#[test]
fn a_speech_answer_is_the_audio_as_it_stands() {
    assert_eq!(
        speech_outcome(answer(200, &[0xFF, 0xFB, 0x90, 0x00])),
        Ok(vec![0xFF, 0xFB, 0x90, 0x00])
    );
    assert_eq!(speech_outcome(answer(200, b"")), Ok(vec![]));
    assert_eq!(speech_outcome(answer(204, b"{}")), Ok(b"{}".to_vec()));
}

#[test]
fn a_speech_failure_holds_the_providers_body() {
    assert_eq!(
        speech_outcome(answer(503, b"unavailable")),
        Err(AudioError::Provider("TTS API failed: unavailable".to_string()))
    );
}

#[test]
fn an_unread_refusal_is_a_refusal_with_nothing_to_quote() {
    let reply = |status| ProviderReply::Unread { status, reason: "body cut short".to_string() };
    assert_eq!(
        transcription_outcome(reply(502)),
        Err(AudioError::Provider("Whisper API failed: ".to_string()))
    );
    assert_eq!(
        chat_outcome(reply(500)),
        Err(AudioError::Provider("Chat API failed: ".to_string()))
    );
    assert_eq!(speech_outcome(reply(404)), Err(AudioError::Provider("TTS API failed: ".to_string())));
}

#[test]
fn an_unread_success_is_a_transport_error() {
    let reply = || ProviderReply::Unread { status: 200, reason: "body cut short".to_string() };
    let error = || AudioError::Transport("body cut short".to_string());
    assert_eq!(transcription_outcome(reply()), Err(error()));
    assert_eq!(chat_outcome(reply()), Err(error()));
    assert_eq!(speech_outcome(reply()), Err(error()));
}
