use hearthly::language::Language;

#[test]
fn the_three_codes_are_read() {
    assert_eq!(Language::from_code("en"), Some(Language::English));
    assert_eq!(Language::from_code("hi"), Some(Language::Hindi));
    assert_eq!(Language::from_code("pa"), Some(Language::Punjabi));
}

#[test]
fn other_codes_are_not_read() {
    for code in ["", "e", "en-US", "EN", "En", "english", "xx", "hi ", " pa", "pa\0", "hı", "ен"] {
        assert_eq!(Language::from_code(code), None);
    }
}

#[test]
fn each_language_is_read_back_from_its_code() {
    for language in [Language::English, Language::Hindi, Language::Punjabi] {
        assert_eq!(Language::from_code(language.code()), Some(language));
    }
    assert_eq!(Language::English.code(), "en");
    assert_eq!(Language::Hindi.code(), "hi");
    assert_eq!(Language::Punjabi.code(), "pa");
}

#[test]
fn each_language_has_its_voice() {
    assert_eq!(Language::English.voice(), "alloy");
    assert_eq!(Language::Hindi.voice(), "nova");
    assert_eq!(Language::Punjabi.voice(), "nova");
}
