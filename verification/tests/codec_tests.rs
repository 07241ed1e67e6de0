use base64::Engine;
use hearthly::codec::{can_encode, decode_audio};
use hearthly::pipeline::assemble;
use hearthly::error::AudioError;

fn encode_audio(bytes: &[u8]) -> String {
    assemble(String::new(), bytes).audio
}

#[test]
fn bytes_are_encoded_with_the_standard_alphabet_and_padding() {
    assert_eq!(encode_audio(b""), "");
    assert_eq!(encode_audio(b"f"), "Zg==");
    assert_eq!(encode_audio(b"fo"), "Zm8=");
    assert_eq!(encode_audio(b"foo"), "Zm9v");
    assert_eq!(encode_audio(b"foobar"), "Zm9vYmFy");
    assert_eq!(encode_audio(&[0xFF, 0xFB, 0x90, 0x00]), "//uQAA==");
}

#[test]
fn text_is_decoded_to_its_bytes() {
    assert_eq!(decode_audio(""), Ok(vec![]));
    assert_eq!(decode_audio("Zg=="), Ok(b"f".to_vec()));
    assert_eq!(decode_audio("Zm9vYmFy"), Ok(b"foobar".to_vec()));
    assert_eq!(decode_audio("//uQAA=="), Ok(vec![0xFF, 0xFB, 0x90, 0x00]));
}

#[test]
fn encoding_agrees_with_the_base64_crate() {
    let bytes: Vec<u8> = (0..=255u8).collect();
    let text = encode_audio(&bytes);
    assert_eq!(text, base64::engine::general_purpose::STANDARD.encode(&bytes));
    assert_eq!(decode_audio(&text), Ok(bytes));
}

#[test]
fn broken_text_is_a_decode_error_with_the_decoders_words() {
    assert_eq!(
        decode_audio("not base64!"),
        Err(AudioError::Decode("Invalid symbol 32, offset 3.".to_string()))
    );
    assert_eq!(decode_audio("Zg="), Err(AudioError::Decode("Invalid padding".to_string())));
    assert_eq!(
        decode_audio("Zh=="),
        Err(AudioError::Decode("Invalid last symbol 104, offset 1.".to_string()))
    );
    assert_eq!(
        decode_audio("Zm9vY"),
        Err(AudioError::Decode("Invalid input length: 5".to_string()))
    );
}

#[test]
fn url_safe_text_is_refused() {
    assert!(decode_audio("__uQAA==").is_err());
}

#[test]
fn audio_that_fits_can_be_encoded() {
    assert!(can_encode(0));
    assert!(can_encode(1));
    assert!(can_encode(10_000_000));
    assert!(can_encode(isize::MAX as usize / 4 * 3));
    assert!(!can_encode(isize::MAX as usize / 4 * 3 + 1));
    assert!(!can_encode(isize::MAX as usize));
    assert!(!can_encode(usize::MAX));
}
