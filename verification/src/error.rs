//! The one error type of the pipeline.

use vstd::prelude::*;
use crate::text::concat;

verus! {

/// Why a request failed. Each variant but `InvalidLanguage` carries the
/// detail that the failing stage reported.
#[derive(Debug, PartialEq, Eq)]
pub enum AudioError {
    /// A scratch file could not be written or read.
    Io(String),
    /// The submitted audio is not valid base64.
    Decode(String),
    /// The transcoder could not be launched or exited with a failure; the
    /// detail is its diagnostic output.
    Transcode(String),
    /// The language code is not one of the supported codes.
    InvalidLanguage,
    /// No provider credential is configured.
    MissingCredential(String),
    /// A provider could not be reached.
    Transport(String),
    /// A provider answered with a status other than success.
    Provider(String),
    /// A provider answered with success, without the expected field.
    MalformedResponse(String),
}

/// An [`AudioError`] as contracts see it.
pub enum AudioErrorView {
    Io(Seq<char>),
    Decode(Seq<char>),
    Transcode(Seq<char>),
    InvalidLanguage,
    MissingCredential(Seq<char>),
    Transport(Seq<char>),
    Provider(Seq<char>),
    MalformedResponse(Seq<char>),
}

impl View for AudioError {
    type V = AudioErrorView;

    open spec fn view(&self) -> AudioErrorView {
        match self {
            AudioError::Io(detail) => AudioErrorView::Io(detail@),
            AudioError::Decode(detail) => AudioErrorView::Decode(detail@),
            AudioError::Transcode(detail) => AudioErrorView::Transcode(detail@),
            AudioError::InvalidLanguage => AudioErrorView::InvalidLanguage,
            AudioError::MissingCredential(detail) => AudioErrorView::MissingCredential(detail@),
            AudioError::Transport(detail) => AudioErrorView::Transport(detail@),
            AudioError::Provider(detail) => AudioErrorView::Provider(detail@),
            AudioError::MalformedResponse(detail) => AudioErrorView::MalformedResponse(detail@),
        }
    }
}

impl AudioErrorView {
    /// The text shown for the error: a prefix that names the failing part,
    /// then the detail.
    pub open spec fn message(self) -> Seq<char> {
        match self {
            AudioErrorView::Io(detail) => "IO error: "@ + detail,
            AudioErrorView::Decode(detail) => "Base64 decode error: "@ + detail,
            AudioErrorView::Transcode(detail) => "FFmpeg error: "@ + detail,
            AudioErrorView::InvalidLanguage => "Invalid language"@,
            AudioErrorView::MissingCredential(detail) => "OpenAI API error: "@ + detail,
            AudioErrorView::Transport(detail) => "HTTP error: "@ + detail,
            AudioErrorView::Provider(detail) => "OpenAI API error: "@ + detail,
            AudioErrorView::MalformedResponse(detail) => "OpenAI API error: "@ + detail,
        }
    }

    /// Whether the caller, not the service, is at fault.
    pub open spec fn is_client_error(self) -> bool {
        self is InvalidLanguage
    }

    /// The HTTP status under which the error is reported.
    pub open spec fn status_code(self) -> u16 {
        if self.is_client_error() {
            400
        } else {
            500
        }
    }
}

impl AudioError {
    /// The text shown for the error.
    pub fn message(&self) -> (text: String)
        ensures
            text@ == self@.message(),
    {
        match self {
            AudioError::Io(detail) => concat("IO error: ", detail.as_str()),
            AudioError::Decode(detail) => concat("Base64 decode error: ", detail.as_str()),
            AudioError::Transcode(detail) => concat("FFmpeg error: ", detail.as_str()),
            AudioError::InvalidLanguage => "Invalid language".to_owned(),
            AudioError::MissingCredential(detail) => concat("OpenAI API error: ", detail.as_str()),
            AudioError::Transport(detail) => concat("HTTP error: ", detail.as_str()),
            AudioError::Provider(detail) => concat("OpenAI API error: ", detail.as_str()),
            AudioError::MalformedResponse(detail) => concat(
                "OpenAI API error: ",
                detail.as_str(),
            ),
        }
    }

    /// Whether the caller, not the service, is at fault. Only an unsupported
    /// language is.
    pub fn is_client_error(&self) -> (client: bool)
        ensures
            client == self@.is_client_error(),
    {
        match self {
            AudioError::InvalidLanguage => true,
            _ => false,
        }
    }

    /// The HTTP status under which the error is reported: 400 for a client
    /// error, 500 for all others.
    pub fn status_code(&self) -> (status: u16)
        ensures
            status == self@.status_code(),
    {
        if self.is_client_error() {
            400
        } else {
            500
        }
    }
}

} // verus!
