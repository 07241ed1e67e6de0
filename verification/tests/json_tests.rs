use hearthly::json::{completion_text, read_completion, read_transcript, transcript_text};

fn parse(text: &str) -> serde_json::Value {
    serde_json::from_str(text).unwrap()
}

#[test]
fn transcript_is_the_string_under_text() {
    assert_eq!(transcript_text(&parse(r#"{"text": "hello"}"#)), Some("hello".to_string()));
    assert_eq!(
        transcript_text(&parse(r#"{"language": "en", "text": "नमस्ते", "duration": 1.5}"#)),
        Some("नमस्ते".to_string())
    );
    assert_eq!(transcript_text(&parse(r#"{"text": ""}"#)), Some(String::new()));
}

#[test]
fn transcript_is_missing_without_a_string_under_text() {
    for document in [
        r#"{}"#,
        r#"{"Text": "hello"}"#,
        r#"{"text": 5}"#,
        r#"{"text": null}"#,
        r#"{"text": ["hello"]}"#,
        r#"{"text": {"text": "hello"}}"#,
        r#"["text"]"#,
        r#""text""#,
        r#"null"#,
        r#"7"#,
    ] {
        assert_eq!(transcript_text(&parse(document)), None);
    }
}

#[test]
fn completion_is_the_content_of_the_first_choice() {
    let document = r#"{"choices": [
        {"index": 0, "message": {"role": "assistant", "content": "hi there"}},
        {"index": 1, "message": {"role": "assistant", "content": "second"}}
    ]}"#;
    assert_eq!(completion_text(&parse(document)), Some("hi there".to_string()));
}

#[test]
fn completion_is_missing_where_a_step_of_the_path_is() {
    for document in [
        r#"{}"#,
        r#"{"choices": []}"#,
        r#"{"choices": {"0": {"message": {"content": "x"}}}}"#,
        r#"{"choices": [[]]}"#,
        r#"{"choices": [{}]}"#,
        r#"{"choices": [{"message": "x"}]}"#,
        r#"{"choices": [{"message": {}}]}"#,
        r#"{"choices": [{"message": {"content": null}}]}"#,
        r#"{"choices": [{"message": {"content": 3}}]}"#,
        r#"{"choices": [{"text": "x"}]}"#,
        r#"{"choices": [null, {"message": {"content": "x"}}]}"#,
        r#"[{"message": {"content": "x"}}]"#,
    ] {
        assert_eq!(completion_text(&parse(document)), None);
    }
}

#[test]
fn bodies_are_parsed_before_they_are_searched() {
    assert_eq!(read_transcript(br#" {"text":"hello"} "#), Some("hello".to_string()));
    assert_eq!(
        read_completion(br#"{"choices":[{"message":{"content":"hi there"}}]}"#),
        Some("hi there".to_string())
    );
}

#[test]
fn the_last_of_two_equal_keys_counts() {
    assert_eq!(
        read_transcript(br#"{"text": "first", "text": "second"}"#),
        Some("second".to_string())
    );
}

#[test]
fn bodies_that_are_no_json_hold_nothing() {
    for body in [&b""[..], b"hello", b"{\"text\": \"hello\"", b"{\"text\": \"hello\"} x", b"\xff\xfe"] {
        assert_eq!(read_transcript(body), None);
        assert_eq!(read_completion(body), None);
    }
}

#[test]
fn escapes_are_resolved() {
    assert_eq!(
        read_transcript(r#"{"text": "a\"b\\c\ndé"}"#.as_bytes()),
        Some("a\"b\\c\nd\u{e9}".to_string())
    );
}
