//! The languages the service speaks.

use vstd::prelude::*;
use crate::text::str_equal;

verus! {

/// A supported language.
#[derive(Clone, Copy, Debug, PartialEq, Eq, Structural)]
pub enum Language {
    English,
    Hindi,
    Punjabi,
}

/// The language that a code names, if it names one. The codes are `en`,
/// `hi` and `pa`, in exactly this spelling.
pub open spec fn language_of(code: Seq<char>) -> Option<Language> {
    if code == "en"@ {
        Some(Language::English)
    } else if code == "hi"@ {
        Some(Language::Hindi)
    } else if code == "pa"@ {
        Some(Language::Punjabi)
    } else {
        None
    }
}

/// Whether a code names a supported language.
pub open spec fn is_supported(code: Seq<char>) -> bool {
    language_of(code) is Some
}

impl Language {
    /// The code under which the language travels in requests.
    pub open spec fn code_text(self) -> Seq<char> {
        match self {
            Language::English => "en"@,
            Language::Hindi => "hi"@,
            Language::Punjabi => "pa"@,
        }
    }

    /// The name of the synthesis voice that speaks the language.
    pub open spec fn voice_name(self) -> Seq<char> {
        match self {
            Language::English => "alloy"@,
            Language::Hindi => "nova"@,
            Language::Punjabi => "nova"@,
        }
    }

    /// Reads a language code. Unknown codes give `None`.
    pub fn from_code(code: &str) -> (language: Option<Language>)
        ensures
            language == language_of(code@),
    {
        if str_equal(code, "en") {
            Some(Language::English)
        } else if str_equal(code, "hi") {
            Some(Language::Hindi)
        } else if str_equal(code, "pa") {
            Some(Language::Punjabi)
        } else {
            None
        }
    }

    pub fn code(self) -> (code: &'static str)
        ensures
            code@ == self.code_text(),
    {
        match self {
            Language::English => "en",
            Language::Hindi => "hi",
            Language::Punjabi => "pa",
        }
    }

    pub fn voice(self) -> (voice: &'static str)
        ensures
            voice@ == self.voice_name(),
    {
        match self {
            Language::English => "alloy",
            Language::Hindi => "nova",
            Language::Punjabi => "nova",
        }
    }
}

/// Every language is read back from its own code.
pub proof fn code_names_its_language(language: Language)
    ensures
        language_of(language.code_text()) == Some(language),
{
    reveal_strlit("en");
    reveal_strlit("hi");
    reveal_strlit("pa");
    assert("hi"@[0] != "en"@[0]);
    assert("pa"@[0] != "en"@[0]);
    assert("pa"@[0] != "hi"@[0]);
}

/// The codes are told apart by their full text: two codes that name the
/// same language are the same code.
pub proof fn supported_codes_are_exact(first: Seq<char>, second: Seq<char>)
    requires
        is_supported(first),
        language_of(first) == language_of(second),
    ensures
        first == second,
{
    reveal_strlit("en");
    reveal_strlit("hi");
    reveal_strlit("pa");
    assert("hi"@[0] != "en"@[0]);
    assert("pa"@[0] != "en"@[0]);
    assert("pa"@[0] != "hi"@[0]);
}

} // verus!
