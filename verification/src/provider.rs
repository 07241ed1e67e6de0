//! The three provider clients: what each sends, and what each makes of the
//! answer. Sending is the caller's part.

use vstd::prelude::*;
use crate::error::{AudioError, AudioErrorView};
use crate::json::{completion_of_body, read_completion, read_transcript, transcript_of_body};
use crate::language::{is_supported, language_of, Language};
use crate::text::{concat, from_utf8_lossy, read_verbatim, utf8_lossy};

verus! {

/// The detail of the error for a missing credential.
pub const MISSING_CREDENTIAL: &'static str =
    "Missing OPENAI_API_KEY: environment variable not found";

/// The scheme word that precedes the credential in the authorization header.
pub const BEARER: &'static str = "Bearer ";

pub const TRANSCRIPTION_URL: &'static str = "https://api.openai.com/v1/audio/transcriptions";

pub const TRANSCRIPTION_MODEL: &'static str = "whisper-1";

pub const AUDIO_FILE_NAME: &'static str = "audio.wav";

pub const AUDIO_MIME_TYPE: &'static str = "audio/wav";

pub const CHAT_URL: &'static str = "https://api.openai.com/v1/chat/completions";

pub const CHAT_MODEL: &'static str = "gpt-4o-mini";

/// The sampling temperature of replies, in tenths.
pub const CHAT_TEMPERATURE_TENTHS: u8 = 7;

pub const SPEECH_URL: &'static str = "https://api.openai.com/v1/audio/speech";

pub const SPEECH_MODEL: &'static str = "tts-1";

pub const SPEECH_FORMAT: &'static str = "mp3";

/// A multipart upload to the transcription endpoint.
#[derive(Debug, PartialEq, Eq)]
pub struct TranscriptionRequest {
    pub url: String,
    /// The value of the authorization header.
    pub authorization: String,
    pub model: String,
    /// The language hint.
    pub language: String,
    /// The name, the type and the bytes of the file part.
    pub file_name: String,
    pub mime_type: String,
    pub audio: Vec<u8>,
}

/// A JSON post to the text generation endpoint: the instructions as the
/// system turn, then the transcript as the user turn.
#[derive(Debug, PartialEq, Eq)]
pub struct ChatRequest {
    pub url: String,
    pub authorization: String,
    pub model: String,
    pub system: String,
    pub user: String,
    pub temperature_tenths: u8,
}

/// A JSON post to the speech synthesis endpoint.
#[derive(Debug, PartialEq, Eq)]
pub struct SpeechRequest {
    pub url: String,
    pub authorization: String,
    pub model: String,
    pub input: String,
    pub voice: String,
    pub response_format: String,
}

/// A [`TranscriptionRequest`] as contracts see it.
pub struct TranscriptionRequestView {
    pub url: Seq<char>,
    pub authorization: Seq<char>,
    pub model: Seq<char>,
    pub language: Seq<char>,
    pub file_name: Seq<char>,
    pub mime_type: Seq<char>,
    pub audio: Seq<u8>,
}

/// A [`ChatRequest`] as contracts see it.
pub struct ChatRequestView {
    pub url: Seq<char>,
    pub authorization: Seq<char>,
    pub model: Seq<char>,
    pub system: Seq<char>,
    pub user: Seq<char>,
    pub temperature_tenths: u8,
}

/// A [`SpeechRequest`] as contracts see it.
pub struct SpeechRequestView {
    pub url: Seq<char>,
    pub authorization: Seq<char>,
    pub model: Seq<char>,
    pub input: Seq<char>,
    pub voice: Seq<char>,
    pub response_format: Seq<char>,
}

impl View for TranscriptionRequest {
    type V = TranscriptionRequestView;

    open spec fn view(&self) -> TranscriptionRequestView {
        TranscriptionRequestView {
            url: self.url@,
            authorization: self.authorization@,
            model: self.model@,
            language: self.language@,
            file_name: self.file_name@,
            mime_type: self.mime_type@,
            audio: self.audio@,
        }
    }
}

impl View for ChatRequest {
    type V = ChatRequestView;

    open spec fn view(&self) -> ChatRequestView {
        ChatRequestView {
            url: self.url@,
            authorization: self.authorization@,
            model: self.model@,
            system: self.system@,
            user: self.user@,
            temperature_tenths: self.temperature_tenths,
        }
    }
}

impl View for SpeechRequest {
    type V = SpeechRequestView;

    open spec fn view(&self) -> SpeechRequestView {
        SpeechRequestView {
            url: self.url@,
            authorization: self.authorization@,
            model: self.model@,
            input: self.input@,
            voice: self.voice@,
            response_format: self.response_format@,
        }
    }
}

/// What came of sending a request.
#[derive(Debug, PartialEq, Eq)]
pub enum ProviderReply {
    /// No answer arrived; the text says why.
    Unreachable(String),
    /// The provider answered with this status and body.
    Answered { status: u16, body: Vec<u8> },
    /// The provider answered with this status, and its body could not be
    /// read; the text says why.
    Unread { status: u16, reason: String },
}

/// A [`ProviderReply`] as contracts see it.
pub enum ProviderReplyView {
    Unreachable(Seq<char>),
    Answered { status: u16, body: Seq<u8> },
    Unread { status: u16, reason: Seq<char> },
}

impl View for ProviderReply {
    type V = ProviderReplyView;

    open spec fn view(&self) -> ProviderReplyView {
        match self {
            ProviderReply::Unreachable(reason) => ProviderReplyView::Unreachable(reason@),
            ProviderReply::Answered { status, body } => ProviderReplyView::Answered {
                status: *status,
                body: body@,
            },
            ProviderReply::Unread { status, reason } => ProviderReplyView::Unread {
                status: *status,
                reason: reason@,
            },
        }
    }
}

/// Whether an HTTP status reports success: the statuses from 200 to 299 do.
pub open spec fn is_success(status: u16) -> bool {
    200 <= status <= 299
}

/// The value of the authorization header for a credential.
pub open spec fn bearer(credential: Seq<char>) -> Seq<char> {
    BEARER@ + credential
}

/// The error of a provider call that has no credential to present.
pub open spec fn missing_credential() -> AudioErrorView {
    AudioErrorView::MissingCredential(MISSING_CREDENTIAL@)
}

/// What is sent to transcribe `audio`. A language code that names no
/// language is refused first, whether or not there is a credential; for a
/// supported language, a missing credential is the error.
pub open spec fn transcription_call(
    credential: Option<Seq<char>>,
    code: Seq<char>,
    audio: Seq<u8>,
) -> Result<TranscriptionRequestView, AudioErrorView> {
    match language_of(code) {
        None => Err(AudioErrorView::InvalidLanguage),
        Some(language) => match credential {
            None => Err(missing_credential()),
            Some(secret) => Ok(
                TranscriptionRequestView {
                    url: TRANSCRIPTION_URL@,
                    authorization: bearer(secret),
                    model: TRANSCRIPTION_MODEL@,
                    language: language.code_text(),
                    file_name: AUDIO_FILE_NAME@,
                    mime_type: AUDIO_MIME_TYPE@,
                    audio,
                },
            ),
        },
    }
}

/// What is sent to have `transcript` answered under `instructions`.
pub open spec fn chat_call(
    credential: Option<Seq<char>>,
    instructions: Seq<char>,
    transcript: Seq<char>,
) -> Result<ChatRequestView, AudioErrorView> {
    match credential {
        None => Err(missing_credential()),
        Some(secret) => Ok(
            ChatRequestView {
                url: CHAT_URL@,
                authorization: bearer(secret),
                model: CHAT_MODEL@,
                system: instructions,
                user: transcript,
                temperature_tenths: CHAT_TEMPERATURE_TENTHS,
            },
        ),
    }
}

/// What is sent to have `text` spoken in the voice of a language. A
/// language code that names no language, and so no voice, is refused
/// first, whether or not there is a credential; for a supported language, a
/// missing credential is the error.
pub open spec fn speech_call(
    credential: Option<Seq<char>>,
    text: Seq<char>,
    code: Seq<char>,
) -> Result<SpeechRequestView, AudioErrorView> {
    match language_of(code) {
        None => Err(AudioErrorView::InvalidLanguage),
        Some(language) => match credential {
            None => Err(missing_credential()),
            Some(secret) => Ok(
                SpeechRequestView {
                    url: SPEECH_URL@,
                    authorization: bearer(secret),
                    model: SPEECH_MODEL@,
                    input: text,
                    voice: language.voice_name(),
                    response_format: SPEECH_FORMAT@,
                },
            ),
        },
    }
}

/// A language code that names no supported language is answered with
/// `InvalidLanguage` by the transcription client and by the speech client,
/// with or without a credential, whatever the audio or the text.
pub proof fn unsupported_language_is_refused_first(
    credential: Option<Seq<char>>,
    code: Seq<char>,
    audio: Seq<u8>,
    text: Seq<char>,
)
    requires
        !is_supported(code),
    ensures
        transcription_call(credential, code, audio) == Err::<
            TranscriptionRequestView,
            AudioErrorView,
        >(AudioErrorView::InvalidLanguage),
        speech_call(credential, text, code) == Err::<SpeechRequestView, AudioErrorView>(
            AudioErrorView::InvalidLanguage,
        ),
{
}

/// The error for an answer whose status is no success: the name of the
/// failing service, then the body as text.
pub open spec fn provider_failure(label: Seq<char>, body: Seq<u8>) -> AudioErrorView {
    AudioErrorView::Provider(label + utf8_lossy(body))
}

/// The error for an answer whose body could not be read. Under a status
/// that is no success the answer is a refusal all the same, with nothing
/// to quote; under a success the provider was not heard to the end.
pub open spec fn unread_failure(
    label: Seq<char>,
    status: u16,
    reason: Seq<char>,
) -> AudioErrorView {
    if is_success(status) {
        AudioErrorView::Transport(reason)
    } else {
        AudioErrorView::Provider(label)
    }
}

/// What a transcription reply means.
pub open spec fn transcription_result(reply: ProviderReplyView) -> Result<
    Seq<char>,
    AudioErrorView,
> {
    match reply {
        ProviderReplyView::Unreachable(reason) => Err(AudioErrorView::Transport(reason)),
        ProviderReplyView::Unread { status, reason } => Err(
            unread_failure("Whisper API failed: "@, status, reason),
        ),
        ProviderReplyView::Answered { status, body } => if !is_success(status) {
            Err(provider_failure("Whisper API failed: "@, body))
        } else {
            match transcript_of_body(body) {
                Some(transcript) => Ok(transcript),
                None => Err(AudioErrorView::MalformedResponse("No transcript in response"@)),
            }
        },
    }
}

/// What a chat reply means.
pub open spec fn chat_result(reply: ProviderReplyView) -> Result<Seq<char>, AudioErrorView> {
    match reply {
        ProviderReplyView::Unreachable(reason) => Err(AudioErrorView::Transport(reason)),
        ProviderReplyView::Unread { status, reason } => Err(
            unread_failure("Chat API failed: "@, status, reason),
        ),
        ProviderReplyView::Answered { status, body } => if !is_success(status) {
            Err(provider_failure("Chat API failed: "@, body))
        } else {
            match completion_of_body(body) {
                Some(completion) => Ok(completion),
                None => Err(AudioErrorView::MalformedResponse("No response text in Chat API"@)),
            }
        },
    }
}

/// What a speech reply means: the body of a successful answer is the audio,
/// as it stands.
pub open spec fn speech_result(reply: ProviderReplyView) -> Result<Seq<u8>, AudioErrorView> {
    match reply {
        ProviderReplyView::Unreachable(reason) => Err(AudioErrorView::Transport(reason)),
        ProviderReplyView::Unread { status, reason } => Err(
            unread_failure("TTS API failed: "@, status, reason),
        ),
        ProviderReplyView::Answered { status, body } => if !is_success(status) {
            Err(provider_failure("TTS API failed: "@, body))
        } else {
            Ok(body)
        },
    }
}

/// Whether the body of a refusal is read verbatim.
pub open spec fn refusal_read_verbatim(reply: ProviderReplyView) -> bool {
    reply matches ProviderReplyView::Answered { status, body } ==> is_success(status)
        || read_verbatim(body)
}

/// Whether `outcome` is the text or the error that `expected` names.
pub open spec fn is_text_outcome(
    outcome: Result<String, AudioError>,
    expected: Result<Seq<char>, AudioErrorView>,
) -> bool {
    match outcome {
        Ok(text) => expected == Ok::<Seq<char>, AudioErrorView>(text@),
        Err(error) => expected == Err::<Seq<char>, AudioErrorView>(error@),
    }
}

/// Whether a status reports success.
pub fn status_is_success(status: u16) -> (success: bool)
    ensures
        success == is_success(status),
{
    200 <= status && status <= 299
}

/// The error for a missing credential.
pub fn missing_credential_error() -> (error: AudioError)
    ensures
        error@ == missing_credential(),
{
    AudioError::MissingCredential(MISSING_CREDENTIAL.to_owned())
}

/// The error for an answer whose status is no success. A body in valid
/// UTF-8 is carried as it stands.
pub fn provider_failure_error(label: &str, body: &[u8]) -> (error: AudioError)
    ensures
        error@ == provider_failure(label@, body@),
        read_verbatim(body@),
{
    let detail = from_utf8_lossy(body);
    AudioError::Provider(concat(label, detail.as_str()))
}

/// The error for an answer whose body could not be read.
pub fn unread_failure_error(label: &str, status: u16, reason: String) -> (error: AudioError)
    ensures
        error@ == unread_failure(label@, status, reason@),
{
    if status_is_success(status) {
        AudioError::Transport(reason)
    } else {
        AudioError::Provider(label.to_owned())
    }
}

/// Prepares the upload of normalized audio for transcription. Nothing is
/// sent for an unsupported language or without a credential; the language
/// is looked at first.
pub fn transcription_request(credential: Option<&str>, language: &str, audio: Vec<u8>) -> (call:
    Result<TranscriptionRequest, AudioError>)
    ensures
        match call {
            Ok(request) => transcription_call(credential_text(credential), language@, audio@)
                == Ok::<TranscriptionRequestView, AudioErrorView>(request@),
            Err(error) => transcription_call(credential_text(credential), language@, audio@)
                == Err::<TranscriptionRequestView, AudioErrorView>(error@),
        },
{
    let known = match Language::from_code(language) {
        Some(known) => known,
        None => {
            return Err(AudioError::InvalidLanguage);
        },
    };
    let secret = match credential {
        Some(secret) => secret,
        None => {
            return Err(missing_credential_error());
        },
    };
    Ok(
        TranscriptionRequest {
            url: TRANSCRIPTION_URL.to_owned(),
            authorization: concat(BEARER, secret),
            model: TRANSCRIPTION_MODEL.to_owned(),
            language: known.code().to_owned(),
            file_name: AUDIO_FILE_NAME.to_owned(),
            mime_type: AUDIO_MIME_TYPE.to_owned(),
            audio,
        },
    )
}

/// Prepares the request for a reply to `transcript` under `instructions`.
pub fn chat_request(credential: Option<&str>, instructions: String, transcript: String) -> (call:
    Result<ChatRequest, AudioError>)
    ensures
        match call {
            Ok(request) => chat_call(credential_text(credential), instructions@, transcript@)
                == Ok::<ChatRequestView, AudioErrorView>(request@),
            Err(error) => chat_call(credential_text(credential), instructions@, transcript@)
                == Err::<ChatRequestView, AudioErrorView>(error@),
        },
{
    match credential {
        None => Err(missing_credential_error()),
        Some(secret) => Ok(
            ChatRequest {
                url: CHAT_URL.to_owned(),
                authorization: concat(BEARER, secret),
                model: CHAT_MODEL.to_owned(),
                system: instructions,
                user: transcript,
                temperature_tenths: CHAT_TEMPERATURE_TENTHS,
            },
        ),
    }
}

/// Prepares the request to speak `text` in the voice of a language. Nothing
/// is sent for an unsupported language or without a credential; the
/// language is looked at first.
pub fn speech_request(credential: Option<&str>, text: String, language: &str) -> (call: Result<
    SpeechRequest,
    AudioError,
>)
    ensures
        match call {
            Ok(request) => speech_call(credential_text(credential), text@, language@) == Ok::<
                SpeechRequestView,
                AudioErrorView,
            >(request@),
            Err(error) => speech_call(credential_text(credential), text@, language@) == Err::<
                SpeechRequestView,
                AudioErrorView,
            >(error@),
        },
{
    let known = match Language::from_code(language) {
        Some(known) => known,
        None => {
            return Err(AudioError::InvalidLanguage);
        },
    };
    let secret = match credential {
        Some(secret) => secret,
        None => {
            return Err(missing_credential_error());
        },
    };
    Ok(
        SpeechRequest {
            url: SPEECH_URL.to_owned(),
            authorization: concat(BEARER, secret),
            model: SPEECH_MODEL.to_owned(),
            input: text,
            voice: known.voice().to_owned(),
            response_format: SPEECH_FORMAT.to_owned(),
        },
    )
}

/// A credential as contracts see it.
pub open spec fn credential_text(credential: Option<&str>) -> Option<Seq<char>> {
    match credential {
        Some(secret) => Some(secret@),
        None => None,
    }
}

/// Reads the reply to a transcription request.
pub fn transcription_outcome(reply: ProviderReply) -> (outcome: Result<String, AudioError>)
    ensures
        is_text_outcome(outcome, transcription_result(reply@)),
        refusal_read_verbatim(reply@),
{
    match reply {
        ProviderReply::Unreachable(reason) => Err(AudioError::Transport(reason)),
        ProviderReply::Unread { status, reason } => Err(
            unread_failure_error("Whisper API failed: ", status, reason),
        ),
        ProviderReply::Answered { status, body } => {
            if !status_is_success(status) {
                Err(provider_failure_error("Whisper API failed: ", body.as_slice()))
            } else {
                match read_transcript(body.as_slice()) {
                    Some(transcript) => Ok(transcript),
                    None => Err(
                        AudioError::MalformedResponse("No transcript in response".to_owned()),
                    ),
                }
            }
        },
    }
}

/// Reads the reply to a chat request.
pub fn chat_outcome(reply: ProviderReply) -> (outcome: Result<String, AudioError>)
    ensures
        is_text_outcome(outcome, chat_result(reply@)),
        refusal_read_verbatim(reply@),
{
    match reply {
        ProviderReply::Unreachable(reason) => Err(AudioError::Transport(reason)),
        ProviderReply::Unread { status, reason } => Err(
            unread_failure_error("Chat API failed: ", status, reason),
        ),
        ProviderReply::Answered { status, body } => {
            if !status_is_success(status) {
                Err(provider_failure_error("Chat API failed: ", body.as_slice()))
            } else {
                match read_completion(body.as_slice()) {
                    Some(completion) => Ok(completion),
                    None => Err(
                        AudioError::MalformedResponse("No response text in Chat API".to_owned()),
                    ),
                }
            }
        },
    }
}

/// Reads the reply to a speech request.
pub fn speech_outcome(reply: ProviderReply) -> (outcome: Result<Vec<u8>, AudioError>)
    ensures
        match outcome {
            Ok(audio) => speech_result(reply@) == Ok::<Seq<u8>, AudioErrorView>(audio@),
            Err(error) => speech_result(reply@) == Err::<Seq<u8>, AudioErrorView>(error@),
        },
        refusal_read_verbatim(reply@),
{
    match reply {
        ProviderReply::Unreachable(reason) => Err(AudioError::Transport(reason)),
        ProviderReply::Unread { status, reason } => Err(
            unread_failure_error("TTS API failed: ", status, reason),
        ),
        ProviderReply::Answered { status, body } => {
            if !status_is_success(status) {
                Err(provider_failure_error("TTS API failed: ", body.as_slice()))
            } else {
                Ok(body)
            }
        },
    }
}

} // verus!
