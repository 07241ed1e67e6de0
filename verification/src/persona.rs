//! The persona instruction composer: from a language and four flags to the
//! system prompt of the reply.

use vstd::prelude::*;
use crate::error::{AudioError, AudioErrorView};
use crate::language::{language_of, Language};
use crate::prompts::{
    phrasing, phrasing_text, slang_block, slang_text, tone_block, tone_text,
    tones_read_differently, SHARED_INSTRUCTIONS,
};

verus! {

/// The persona switches of a request. Any combination may be set.
#[derive(Clone, Copy, Debug, PartialEq, Eq, Structural)]
pub struct PersonaFlags {
    pub genz: bool,
    pub sarcastic: bool,
    pub shenanigan: bool,
    pub seductive: bool,
}

/// The tone of a reply. Exactly one applies to a request.
#[derive(Clone, Copy, Debug, PartialEq, Eq, Structural)]
pub enum Tone {
    Calm,
    Sarcastic,
    Shenanigan,
    Seductive,
}

/// The tone that the flags ask for: seductive before shenanigan before
/// sarcastic, and calm when none of the three is set. The slang flag has no
/// say in it.
pub open spec fn selected_tone(flags: PersonaFlags) -> Tone {
    if flags.seductive {
        Tone::Seductive
    } else if flags.shenanigan {
        Tone::Shenanigan
    } else if flags.sarcastic {
        Tone::Sarcastic
    } else {
        Tone::Calm
    }
}

/// The instructions for a language and a set of flags: the shared block, the
/// language's phrasing guidance, the selected tone and, with the slang flag,
/// the language's slang overlay.
pub open spec fn persona_instructions(language: Language, flags: PersonaFlags) -> Seq<char> {
    SHARED_INSTRUCTIONS@ + phrasing_text(language) + tone_text(language, selected_tone(flags)) + (
    if flags.genz {
        slang_text(language)
    } else {
        Seq::empty()
    })
}

/// What composing answers for a language code: the instructions of the
/// language it names, or the error for a code that names none.
pub open spec fn composed(code: Seq<char>, flags: PersonaFlags) -> Result<
    Seq<char>,
    AudioErrorView,
> {
    match language_of(code) {
        Some(language) => Ok(persona_instructions(language, flags)),
        None => Err(AudioErrorView::InvalidLanguage),
    }
}

/// Whether `outcome` is what composing answers for `code` and `flags`.
pub open spec fn is_composition(
    code: Seq<char>,
    flags: PersonaFlags,
    outcome: Result<String, AudioError>,
) -> bool {
    match outcome {
        Ok(text) => composed(code, flags) == Ok::<Seq<char>, AudioErrorView>(text@),
        Err(error) => composed(code, flags) == Err::<Seq<char>, AudioErrorView>(error@),
    }
}

/// Picks the tone by precedence.
pub fn select_tone(flags: &PersonaFlags) -> (tone: Tone)
    ensures
        tone == selected_tone(*flags),
{
    if flags.seductive {
        Tone::Seductive
    } else if flags.shenanigan {
        Tone::Shenanigan
    } else if flags.sarcastic {
        Tone::Sarcastic
    } else {
        Tone::Calm
    }
}

/// Composes the instructions for a supported language.
pub fn compose(language: Language, flags: &PersonaFlags) -> (instructions: String)
    ensures
        instructions@ == persona_instructions(language, *flags),
{
    let mut instructions = String::new();
    instructions.append(SHARED_INSTRUCTIONS);
    instructions.append(phrasing(language));
    instructions.append(tone_block(language, select_tone(flags)));
    if flags.genz {
        instructions.append(slang_block(language));
    }
    assert(instructions@ =~= persona_instructions(language, *flags));
    instructions
}

/// Composes the instructions for a language code. A code other than `en`,
/// `hi` and `pa` is answered with `InvalidLanguage`, whatever the flags.
pub fn get_language_instructions(
    language: &str,
    genz_mode: bool,
    sarcastic_mode: bool,
    shenanigan_mode: bool,
    seductive_mode: bool,
) -> (outcome: Result<String, AudioError>)
    ensures
        is_composition(
            language@,
            (PersonaFlags {
                genz: genz_mode,
                sarcastic: sarcastic_mode,
                shenanigan: shenanigan_mode,
                seductive: seductive_mode,
            }),
            outcome,
        ),
{
    let flags = PersonaFlags {
        genz: genz_mode,
        sarcastic: sarcastic_mode,
        shenanigan: shenanigan_mode,
        seductive: seductive_mode,
    };
    match Language::from_code(language) {
        Some(known) => Ok(compose(known, &flags)),
        None => Err(AudioError::InvalidLanguage),
    }
}

/// Composing is a function of the language code and the flags: whatever
/// two calls with the same code and flags answer is the same, character for
/// character.
pub proof fn composing_is_deterministic(
    code: Seq<char>,
    flags: PersonaFlags,
    first: Result<String, AudioError>,
    second: Result<String, AudioError>,
)
    requires
        is_composition(code, flags, first),
        is_composition(code, flags, second),
    ensures
        match (first, second) {
            (Ok(a), Ok(b)) => a@ == b@,
            (Err(a), Err(b)) => a@ == b@,
            _ => false,
        },
{
}

/// Composing succeeds for the codes `en`, `hi` and `pa`, and answers every
/// other code with `InvalidLanguage`, whatever the flags.
pub proof fn only_supported_codes_compose(code: Seq<char>, flags: PersonaFlags)
    ensures
        composed(code, flags) is Ok <==> code == "en"@ || code == "hi"@ || code == "pa"@,
        composed(code, flags) is Err ==> composed(code, flags) == Err::<
            Seq<char>,
            AudioErrorView,
        >(AudioErrorView::InvalidLanguage),
{
}

/// A tone flag overrules every flag of lower precedence: the instructions
/// are those of the highest flag set alone. Seductive comes before
/// shenanigan, shenanigan before sarcastic, and with none of them set the
/// tone is calm.
pub proof fn lower_flags_are_overruled(language: Language, flags: PersonaFlags)
    ensures
        flags.seductive ==> selected_tone(flags) == Tone::Seductive && persona_instructions(
            language,
            flags,
        ) == persona_instructions(
            language,
            PersonaFlags { sarcastic: false, shenanigan: false, ..flags },
        ),
        !flags.seductive && flags.shenanigan ==> selected_tone(flags) == Tone::Shenanigan
            && persona_instructions(language, flags) == persona_instructions(
            language,
            PersonaFlags { sarcastic: false, ..flags },
        ),
        !flags.seductive && !flags.shenanigan && flags.sarcastic ==> selected_tone(flags)
            == Tone::Sarcastic,
        !flags.seductive && !flags.shenanigan && !flags.sarcastic ==> selected_tone(flags)
            == Tone::Calm,
{
}

/// The instructions hold exactly one tone block, the selected one, between
/// the phrasing guidance and the slang overlay.
pub proof fn one_tone_block(language: Language, flags: PersonaFlags)
    ensures
        persona_instructions(language, flags) == SHARED_INSTRUCTIONS@ + phrasing_text(language)
            + tone_text(language, selected_tone(flags)) + (if flags.genz {
            slang_text(language)
        } else {
            Seq::empty()
        }),
{
}

/// The slang flag only appends: with it the instructions are those without
/// it, followed by the slang overlay of the language; the tone is chosen
/// without regard to it.
pub proof fn slang_only_appends(language: Language, flags: PersonaFlags)
    ensures
        selected_tone(PersonaFlags { genz: true, ..flags }) == selected_tone(
            PersonaFlags { genz: false, ..flags },
        ),
        persona_instructions(language, PersonaFlags { genz: true, ..flags })
            == persona_instructions(language, PersonaFlags { genz: false, ..flags }) + slang_text(
            language,
        ),
{
    let plain = persona_instructions(language, PersonaFlags { genz: false, ..flags });
    assert(plain + Seq::<char>::empty() =~= plain);
    assert(persona_instructions(language, PersonaFlags { genz: true, ..flags }) =~= plain
        + slang_text(language));
}

/// The selected tone shows in the text: flags that select different tones
/// give different instructions. So where seductive and sarcastic are both
/// set, the instructions are not those of sarcastic.
pub proof fn different_tones_give_different_instructions(
    language: Language,
    first: PersonaFlags,
    second: PersonaFlags,
)
    requires
        first.genz == second.genz,
        selected_tone(first) != selected_tone(second),
    ensures
        persona_instructions(language, first) != persona_instructions(language, second),
{
    let lead = SHARED_INSTRUCTIONS@ + phrasing_text(language);
    let one = tone_text(language, selected_tone(first));
    let other = tone_text(language, selected_tone(second));
    let overlay = if first.genz {
        slang_text(language)
    } else {
        Seq::empty()
    };
    let left = persona_instructions(language, first);
    let right = persona_instructions(language, second);
    tones_read_differently(language, selected_tone(first), selected_tone(second));
    if left == right {
        assert(left.len() == lead.len() + one.len() + overlay.len());
        assert(right.len() == lead.len() + other.len() + overlay.len());
        assert(one =~= left.subrange(lead.len() as int, (lead.len() + one.len()) as int));
        assert(other =~= right.subrange(lead.len() as int, (lead.len() + other.len()) as int));
        assert(false);
    }
}

} // verus!
