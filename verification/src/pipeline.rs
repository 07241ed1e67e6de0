//! The pipeline orchestrator: one state machine per request.
//!
//! A request passes through validating, normalizing, transcribing,
//! composing, generating, synthesizing and assembling. The machine waits
//! where outside work is under way: for the transcoder while it
//! normalizes, and for each of the three providers. Validating, composing
//! and assembling need no outside work and are done within the step that
//! reaches them. A failure at any stage ends the request in `Error`.
//!
//! The caller drives the machine: it performs the action of each
//! [`Directive`] and reports the outcome as the next [`Event`].

use vstd::prelude::*;
use crate::codec::{
    base64_encoded, can_encode, decode_audio, decoded_audio, encodable, encode_standard,
};
use crate::error::{AudioError, AudioErrorView};
use crate::language::{is_supported, language_of, Language};
use crate::persona::{compose, persona_instructions, PersonaFlags};
use crate::provider::{
    chat_call, chat_outcome, chat_request, chat_result, credential_text, refusal_read_verbatim,
    speech_call, speech_outcome, speech_request, speech_result, transcription_call,
    transcription_outcome, transcription_request, transcription_result, ChatRequest,
    ChatRequestView, ProviderReply, ProviderReplyView, SpeechRequest, SpeechRequestView,
    TranscriptionRequest, TranscriptionRequestView,
};
use crate::scratch::{no_paths, one_path, ScratchPaths, ScratchPathsView};
use crate::transcoder::{
    failure_read_verbatim, ready, transcoding_advance, Conversion, TranscoderEvent,
    TranscoderEventView, TranscoderOutcome, TranscoderOutcomeView, TranscoderStep,
    TranscoderTask, TranscoderTaskView, Transcoding, TranscodingView,
};

verus! {

/// What a client submits: recorded speech in base64, the code of its
/// language, and the persona switches.
#[derive(Debug, PartialEq, Eq)]
pub struct AudioRequest {
    pub audio: String,
    pub language: String,
    pub genz_mode: bool,
    pub sarcastic_mode: bool,
    pub shenanigan_mode: bool,
    pub seductive_mode: bool,
}

/// What a client gets back: the spoken reply in base64, and the transcript
/// of what the client said.
#[derive(Debug, PartialEq, Eq)]
pub struct AudioResponse {
    pub audio: String,
    pub transcript: String,
}

/// An [`AudioRequest`] as contracts see it.
pub struct AudioRequestView {
    pub audio: Seq<char>,
    pub language: Seq<char>,
    pub flags: PersonaFlags,
}

/// An [`AudioResponse`] as contracts see it.
pub struct AudioResponseView {
    pub audio: Seq<char>,
    pub transcript: Seq<char>,
}

impl AudioRequest {
    /// The persona switches of the request.
    pub open spec fn persona(&self) -> PersonaFlags {
        PersonaFlags {
            genz: self.genz_mode,
            sarcastic: self.sarcastic_mode,
            shenanigan: self.shenanigan_mode,
            seductive: self.seductive_mode,
        }
    }

    /// The persona switches of the request.
    pub fn flags(&self) -> (flags: PersonaFlags)
        ensures
            flags == self.persona(),
    {
        PersonaFlags {
            genz: self.genz_mode,
            sarcastic: self.sarcastic_mode,
            shenanigan: self.shenanigan_mode,
            seductive: self.seductive_mode,
        }
    }
}

impl View for AudioRequest {
    type V = AudioRequestView;

    open spec fn view(&self) -> AudioRequestView {
        AudioRequestView { audio: self.audio@, language: self.language@, flags: self.persona() }
    }
}

impl View for AudioResponse {
    type V = AudioResponseView;

    open spec fn view(&self) -> AudioResponseView {
        AudioResponseView { audio: self.audio@, transcript: self.transcript@ }
    }
}

/// Where the machine stands.
#[derive(Clone, Copy, Debug, PartialEq, Eq, Structural)]
pub enum Stage {
    /// Nothing has been done yet.
    Validating,
    /// The transcoder is at work on the submitted audio.
    Normalizing,
    /// The transcription provider has been asked.
    Transcribing,
    /// The text generation provider has been asked.
    Generating,
    /// The speech synthesis provider has been asked.
    Synthesizing,
    /// The response has been handed out.
    Done,
    /// The request has failed.
    Error,
}

/// What the caller reports to the machine.
#[derive(Debug, PartialEq, Eq)]
pub enum Event {
    /// The request is to be processed.
    Start,
    /// A task of the transcoder ended.
    Transcoder(TranscoderEvent),
    /// A provider call ended.
    ProviderReplied(ProviderReply),
}

/// An [`Event`] as contracts see it.
pub enum EventView {
    Start,
    Transcoder(TranscoderEventView),
    ProviderReplied(ProviderReplyView),
}

impl View for Event {
    type V = EventView;

    open spec fn view(&self) -> EventView {
        match self {
            Event::Start => EventView::Start,
            Event::Transcoder(event) => EventView::Transcoder(event@),
            Event::ProviderReplied(reply) => EventView::ProviderReplied(reply@),
        }
    }
}

/// What the machine asks of the caller.
#[derive(Debug, PartialEq, Eq)]
pub enum Action {
    /// Nothing: the event did not answer what the machine waits for.
    Idle,
    /// Do the transcoder's task; report `Transcoder` with what came of it.
    Transcoder(TranscoderTask),
    /// Send the upload; report `ProviderReplied`.
    Transcribe(TranscriptionRequest),
    /// Send the chat request; report `ProviderReplied`.
    Generate(ChatRequest),
    /// Send the speech request; report `ProviderReplied`.
    Synthesize(SpeechRequest),
    /// Answer the client with the response. The request is done.
    Respond(AudioResponse),
    /// Answer the client with the error. The request is over.
    Fail(AudioError),
}

/// An [`Action`] as contracts see it.
pub enum ActionView {
    Idle,
    Transcoder(TranscoderTaskView),
    Transcribe(TranscriptionRequestView),
    Generate(ChatRequestView),
    Synthesize(SpeechRequestView),
    Respond(AudioResponseView),
    Fail(AudioErrorView),
}

impl View for Action {
    type V = ActionView;

    open spec fn view(&self) -> ActionView {
        match self {
            Action::Idle => ActionView::Idle,
            Action::Transcoder(task) => ActionView::Transcoder(task@),
            Action::Transcribe(request) => ActionView::Transcribe(request@),
            Action::Generate(request) => ActionView::Generate(request@),
            Action::Synthesize(request) => ActionView::Synthesize(request@),
            Action::Respond(response) => ActionView::Respond(response@),
            Action::Fail(error) => ActionView::Fail(error@),
        }
    }
}

/// One instruction of the machine: first remove the scratch files listed
/// under `discard`, without regard to whether that succeeds, then perform
/// the action.
#[derive(Debug, PartialEq, Eq)]
pub struct Directive {
    pub discard: Vec<String>,
    pub action: Action,
}

/// A [`Directive`] as contracts see it.
pub struct DirectiveView {
    pub discard: Seq<Seq<char>>,
    pub action: ActionView,
}

impl View for Directive {
    type V = DirectiveView;

    open spec fn view(&self) -> DirectiveView {
        DirectiveView { discard: self.discard.deep_view(), action: self.action@ }
    }
}

/// The state of one request.
#[derive(Debug)]
pub struct Pipeline {
    stage: Stage,
    request: AudioRequest,
    credential: Option<String>,
    normalizing: Transcoding,
    transcript: String,
}

/// A [`Pipeline`] as contracts see it.
pub struct PipelineView {
    pub stage: Stage,
    pub request: AudioRequestView,
    /// The provider credential, if one is configured.
    pub credential: Option<Seq<char>>,
    /// The conversion that normalizes the submitted audio.
    pub normalizing: TranscodingView,
    /// The transcript, once transcribing has succeeded; empty before.
    pub transcript: Seq<char>,
}

impl View for Pipeline {
    type V = PipelineView;

    closed spec fn view(&self) -> PipelineView {
        PipelineView {
            stage: self.stage,
            request: self.request@,
            credential: match self.credential {
                Some(secret) => Some(secret@),
                None => None,
            },
            normalizing: self.normalizing@,
            transcript: self.transcript@,
        }
    }
}

/// The state in which a request starts.
pub open spec fn initial(
    request: AudioRequestView,
    credential: Option<Seq<char>>,
    scratch: ScratchPathsView,
) -> PipelineView {
    PipelineView {
        stage: Stage::Validating,
        request,
        credential,
        normalizing: ready(Conversion::Normalize, scratch),
        transcript: Seq::empty(),
    }
}

/// The step that changes nothing.
pub open spec fn ignored(state: PipelineView) -> (PipelineView, DirectiveView) {
    (state, DirectiveView { discard: Seq::empty(), action: ActionView::Idle })
}

/// The step that moves on to `stage` with an action.
pub open spec fn proceed(
    state: PipelineView,
    stage: Stage,
    discard: Seq<Seq<char>>,
    action: ActionView,
) -> (PipelineView, DirectiveView) {
    (PipelineView { stage, ..state }, DirectiveView { discard, action })
}

/// The step that ends the request with an error.
pub open spec fn abort(state: PipelineView, discard: Seq<Seq<char>>, error: AudioErrorView) -> (
    PipelineView,
    DirectiveView,
) {
    proceed(state, Stage::Error, discard, ActionView::Fail(error))
}

/// The response to a client: the synthesized audio in base64, beside the
/// transcript.
pub open spec fn assembled(transcript: Seq<char>, audio: Seq<u8>) -> AudioResponseView {
    AudioResponseView { audio: base64_encoded(audio), transcript }
}

/// Normalizing: the event goes to the transcoder, and the machine does what
/// the transcoder's step comes to. A task is passed on to the caller; a
/// failure ends the request; converted audio is to be transcribed.
pub open spec fn normalize(state: PipelineView, event: TranscoderEventView) -> (
    PipelineView,
    DirectiveView,
) {
    let (normalizing, step) = transcoding_advance(state.normalizing, event);
    let moved = PipelineView { stage: Stage::Normalizing, normalizing, ..state };
    match step.outcome {
        TranscoderOutcomeView::Idle => ignored(state),
        TranscoderOutcomeView::Task(task) => (
            moved,
            DirectiveView { discard: step.discard, action: ActionView::Transcoder(task) },
        ),
        TranscoderOutcomeView::Failed(error) => abort(moved, step.discard, error),
        TranscoderOutcomeView::Converted { audio, kept } => on_normalized(moved, audio, kept),
    }
}

/// Validating, on `Start`: an unsupported language ends the request before
/// anything else is looked at; audio that is no base64 ends it next; else
/// the decoded audio is submitted to the transcoder.
pub open spec fn on_start(state: PipelineView) -> (PipelineView, DirectiveView) {
    if !is_supported(state.request.language) {
        abort(state, Seq::empty(), AudioErrorView::InvalidLanguage)
    } else {
        match decoded_audio(state.request.audio) {
            Err(error) => abort(state, Seq::empty(), error),
            Ok(bytes) => normalize(state, TranscoderEventView::Submit(bytes)),
        }
    }
}

/// Normalizing, once the audio is normalized: it is to be transcribed. The
/// file at `kept`, which still holds it, stays until transcribing has
/// ended, unless nothing can be sent.
pub open spec fn on_normalized(state: PipelineView, audio: Seq<u8>, kept: Seq<char>) -> (
    PipelineView,
    DirectiveView,
) {
    match transcription_call(state.credential, state.request.language, audio) {
        Err(error) => abort(state, seq![kept], error),
        Ok(request) => proceed(
            state,
            Stage::Transcribing,
            Seq::empty(),
            ActionView::Transcribe(request),
        ),
    }
}

/// Transcribing, once the provider has replied. The normalized audio is
/// discarded, whatever the reply. A transcript is kept, the instructions
/// are composed, and the reply to it is to be generated.
pub open spec fn on_transcribed(state: PipelineView, reply: ProviderReplyView) -> (
    PipelineView,
    DirectiveView,
) {
    match transcription_result(reply) {
        Err(error) => abort(state, seq![state.normalizing.scratch.output], error),
        Ok(transcript) => match language_of(state.request.language) {
            None => abort(
                state,
                seq![state.normalizing.scratch.output],
                AudioErrorView::InvalidLanguage,
            ),
            Some(language) => match chat_call(
                state.credential,
                persona_instructions(language, state.request.flags),
                transcript,
            ) {
                Err(error) => abort(state, seq![state.normalizing.scratch.output], error),
                Ok(request) => proceed(
                    PipelineView { transcript, ..state },
                    Stage::Generating,
                    seq![state.normalizing.scratch.output],
                    ActionView::Generate(request),
                ),
            },
        },
    }
}

/// Generating, once the provider has replied: the reply is to be spoken.
pub open spec fn on_generated(state: PipelineView, reply: ProviderReplyView) -> (
    PipelineView,
    DirectiveView,
) {
    match chat_result(reply) {
        Err(error) => abort(state, Seq::empty(), error),
        Ok(text) => match speech_call(state.credential, text, state.request.language) {
            Err(error) => abort(state, Seq::empty(), error),
            Ok(request) => proceed(
                state,
                Stage::Synthesizing,
                Seq::empty(),
                ActionView::Synthesize(request),
            ),
        },
    }
}

/// Synthesizing, once the provider has replied: the response is assembled
/// and handed out.
pub open spec fn on_synthesized(state: PipelineView, reply: ProviderReplyView) -> (
    PipelineView,
    DirectiveView,
) {
    match speech_result(reply) {
        Err(error) => abort(state, Seq::empty(), error),
        Ok(audio) => proceed(
            state,
            Stage::Done,
            Seq::empty(),
            ActionView::Respond(assembled(state.transcript, audio)),
        ),
    }
}

/// The machine: the state after an event, and what the caller is to do
/// next. An event that does not answer what the machine waits for changes
/// nothing; in `Done` and in `Error` no event does.
pub open spec fn advance(state: PipelineView, event: EventView) -> (PipelineView, DirectiveView) {
    match (state.stage, event) {
        (Stage::Validating, EventView::Start) => on_start(state),
        (Stage::Normalizing, EventView::Transcoder(event)) => normalize(state, event),
        (Stage::Transcribing, EventView::ProviderReplied(reply)) => on_transcribed(state, reply),
        (Stage::Generating, EventView::ProviderReplied(reply)) => on_generated(state, reply),
        (Stage::Synthesizing, EventView::ProviderReplied(reply)) => on_synthesized(state, reply),
        _ => ignored(state),
    }
}

/// Whether the bytes that a step turns into the text of an error are read
/// verbatim: the diagnostics of a failed transcoder, and the body of a
/// provider's refusal.
pub open spec fn errors_read_verbatim(state: PipelineView, event: EventView) -> bool {
    match (state.stage, event) {
        (Stage::Normalizing, EventView::Transcoder(event)) => failure_read_verbatim(
            state.normalizing,
            event,
        ),
        (Stage::Transcribing, EventView::ProviderReplied(reply)) => refusal_read_verbatim(reply),
        (Stage::Generating, EventView::ProviderReplied(reply)) => refusal_read_verbatim(reply),
        (Stage::Synthesizing, EventView::ProviderReplied(reply)) => refusal_read_verbatim(reply),
        _ => true,
    }
}

/// Whether the machine can take the event. It cannot take synthesized audio
/// whose base64 text would not fit in memory.
pub open spec fn admits(state: PipelineView, event: EventView) -> bool {
    match (state.stage, event) {
        (
            Stage::Synthesizing,
            EventView::ProviderReplied(ProviderReplyView::Answered { status, body }),
        ) => encodable(body.len()),
        _ => true,
    }
}

/// Validates a request: reads its language.
pub fn validate(request: &AudioRequest) -> (outcome: Result<Language, AudioError>)
    ensures
        match outcome {
            Ok(language) => language_of(request@.language) == Some(language),
            Err(error) => !is_supported(request@.language)
                && error@ == AudioErrorView::InvalidLanguage,
        },
{
    match Language::from_code(request.language.as_str()) {
        Some(language) => Ok(language),
        None => Err(AudioError::InvalidLanguage),
    }
}

/// Assembles the response from the transcript and the synthesized audio.
pub fn assemble(transcript: String, audio: &[u8]) -> (response: AudioResponse)
    requires
        encodable(audio@.len()),
    ensures
        response@ == assembled(transcript@, audio@),
{
    AudioResponse { audio: encode_standard(audio), transcript }
}

impl Pipeline {
    /// A machine for the request, in `Validating`. `credential` is the
    /// provider credential, if one is configured; `scratch` names the files
    /// that normalizing may use, and must be the request's own.
    pub fn new(
        request: AudioRequest,
        credential: Option<String>,
        scratch: ScratchPaths,
    ) -> (pipeline: Pipeline)
        ensures
            pipeline@ == initial(
                request@,
                match credential {
                    Some(secret) => Some(secret@),
                    None => None,
                },
                scratch@,
            ),
    {
        Pipeline {
            stage: Stage::Validating,
            request,
            credential,
            normalizing: Transcoding::new(Conversion::Normalize, scratch),
            transcript: String::new(),
        }
    }

    /// Where the machine stands.
    pub fn stage(&self) -> (stage: Stage)
        ensures
            stage == self@.stage,
    {
        self.stage
    }

    /// Whether the machine has ended, in `Done` or in `Error`.
    pub fn is_finished(&self) -> (finished: bool)
        ensures
            finished == (self@.stage is Done || self@.stage is Error),
    {
        match self.stage {
            Stage::Done => true,
            Stage::Error => true,
            _ => false,
        }
    }

    /// Whether the machine can take the event; see [`admits`].
    pub fn admits(&self, event: &Event) -> (admitted: bool)
        ensures
            admitted == admits(self@, event@),
    {
        match (self.stage, event) {
            (
                Stage::Synthesizing,
                Event::ProviderReplied(ProviderReply::Answered { status, body }),
            ) => can_encode(body.len()),
            _ => true,
        }
    }

    fn secret(&self) -> (credential: Option<&str>)
        ensures
            credential_text(credential) == self@.credential,
    {
        match &self.credential {
            Some(secret) => Some(secret.as_str()),
            None => None,
        }
    }

    fn ignore(self) -> (next: (Pipeline, Directive))
        ensures
            (next.0@, next.1@) == ignored(self@),
    {
        (self, Directive { discard: no_paths(), action: Action::Idle })
    }

    fn proceed(self, stage: Stage, discard: Vec<String>, action: Action) -> (next: (
        Pipeline,
        Directive,
    ))
        ensures
            (next.0@, next.1@) == proceed(self@, stage, discard.deep_view(), action@),
    {
        let Pipeline { stage: _, request, credential, normalizing, transcript } = self;
        (
            Pipeline { stage, request, credential, normalizing, transcript },
            Directive { discard, action },
        )
    }

    fn abort(self, discard: Vec<String>, error: AudioError) -> (next: (Pipeline, Directive))
        ensures
            (next.0@, next.1@) == abort(self@, discard.deep_view(), error@),
    {
        self.proceed(Stage::Error, discard, Action::Fail(error))
    }

    fn normalize(self, event: TranscoderEvent) -> (next: (Pipeline, Directive))
        ensures
            (next.0@, next.1@) == normalize(self@, event@),
            failure_read_verbatim(self@.normalizing, event@),
    {
        let Pipeline { stage, request, credential, normalizing, transcript } = self;
        let (normalizing, step) = normalizing.step(event);
        let TranscoderStep { discard, outcome } = step;
        match outcome {
            TranscoderOutcome::Idle => {
                Pipeline { stage, request, credential, normalizing, transcript }.ignore()
            },
            TranscoderOutcome::Task(task) => {
                Pipeline { stage, request, credential, normalizing, transcript }.proceed(
                    Stage::Normalizing,
                    discard,
                    Action::Transcoder(task),
                )
            },
            TranscoderOutcome::Failed(error) => {
                Pipeline {
                    stage: Stage::Normalizing,
                    request,
                    credential,
                    normalizing,
                    transcript,
                }.abort(discard, error)
            },
            TranscoderOutcome::Converted { audio, kept } => {
                Pipeline {
                    stage: Stage::Normalizing,
                    request,
                    credential,
                    normalizing,
                    transcript,
                }.normalized(audio, kept)
            },
        }
    }

    fn start(self) -> (next: (Pipeline, Directive))
        ensures
            (next.0@, next.1@) == on_start(self@),
    {
        if let Err(error) = validate(&self.request) {
            return self.abort(no_paths(), error);
        }
        match decode_audio(self.request.audio.as_str()) {
            Err(error) => self.abort(no_paths(), error),
            Ok(bytes) => self.normalize(TranscoderEvent::Submit(bytes)),
        }
    }

    fn normalized(self, audio: Vec<u8>, kept: String) -> (next: (Pipeline, Directive))
        ensures
            (next.0@, next.1@) == on_normalized(self@, audio@, kept@),
    {
        match transcription_request(self.secret(), self.request.language.as_str(), audio) {
            Err(error) => self.abort(one_path(kept.as_str()), error),
            Ok(request) => {
                self.proceed(Stage::Transcribing, no_paths(), Action::Transcribe(request))
            },
        }
    }

    fn transcribed(self, reply: ProviderReply) -> (next: (Pipeline, Directive))
        ensures
            (next.0@, next.1@) == on_transcribed(self@, reply@),
            refusal_read_verbatim(reply@),
    {
        let discard = one_path(self.normalizing.output());
        let transcript = match transcription_outcome(reply) {
            Ok(transcript) => transcript,
            Err(error) => {
                return self.abort(discard, error);
            },
        };
        let language = match validate(&self.request) {
            Ok(language) => language,
            Err(error) => {
                return self.abort(discard, error);
            },
        };
        let instructions = compose(language, &self.request.flags());
        match chat_request(self.secret(), instructions, transcript.clone()) {
            Err(error) => self.abort(discard, error),
            Ok(request) => {
                let Pipeline {
                    stage: _,
                    request: submitted,
                    credential,
                    normalizing,
                    transcript: _,
                } = self;
                let kept = Pipeline {
                    stage: Stage::Transcribing,
                    request: submitted,
                    credential,
                    normalizing,
                    transcript,
                };
                kept.proceed(Stage::Generating, discard, Action::Generate(request))
            },
        }
    }

    fn generated(self, reply: ProviderReply) -> (next: (Pipeline, Directive))
        ensures
            (next.0@, next.1@) == on_generated(self@, reply@),
            refusal_read_verbatim(reply@),
    {
        let text = match chat_outcome(reply) {
            Ok(text) => text,
            Err(error) => {
                return self.abort(no_paths(), error);
            },
        };
        match speech_request(self.secret(), text, self.request.language.as_str()) {
            Err(error) => self.abort(no_paths(), error),
            Ok(request) => {
                self.proceed(Stage::Synthesizing, no_paths(), Action::Synthesize(request))
            },
        }
    }

    fn synthesized(self, reply: ProviderReply) -> (next: (Pipeline, Directive))
        requires
            reply@ matches ProviderReplyView::Answered { status, body } ==> encodable(body.len()),
        ensures
            (next.0@, next.1@) == on_synthesized(self@, reply@),
            refusal_read_verbatim(reply@),
    {
        match speech_outcome(reply) {
            Err(error) => self.abort(no_paths(), error),
            Ok(audio) => {
                let response = assemble(self.transcript.clone(), audio.as_slice());
                self.proceed(Stage::Done, no_paths(), Action::Respond(response))
            },
        }
    }

    /// Takes an event: moves to the next state and says what the caller is
    /// to do next, as [`advance`] lays down. Where diagnostics or a
    /// provider's body become the text of an error, valid UTF-8 is carried
    /// as it stands.
    pub fn step(self, event: Event) -> (next: (Pipeline, Directive))
        requires
            admits(self@, event@),
        ensures
            (next.0@, next.1@) == advance(self@, event@),
            errors_read_verbatim(self@, event@),
    {
        match (self.stage, event) {
            (Stage::Validating, Event::Start) => self.start(),
            (Stage::Normalizing, Event::Transcoder(event)) => self.normalize(event),
            (Stage::Transcribing, Event::ProviderReplied(reply)) => self.transcribed(reply),
            (Stage::Generating, Event::ProviderReplied(reply)) => self.generated(reply),
            (Stage::Synthesizing, Event::ProviderReplied(reply)) => self.synthesized(reply),
            _ => self.ignore(),
        }
    }
}

} // verus!
