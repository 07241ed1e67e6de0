//! The audio transcoder: one conversion of audio by the `ffmpeg` program.
//!
//! A conversion writes the audio to a scratch file, runs the program on
//! it, and reads the converted audio back. Touching the files and running
//! the program is the caller's part: [`Transcoding::step`] says what is to
//! be done, and takes what came of it.

use vstd::prelude::*;
use crate::error::{AudioError, AudioErrorView};
use crate::scratch::{no_paths, one_path, two_paths, ScratchPaths, ScratchPathsView};
use crate::text::{from_utf8_lossy, read_verbatim, utf8_lossy};

verus! {

/// The program that transcodes.
pub const TRANSCODER: &'static str = "ffmpeg";

/// The two conversions of the transcoder.
#[derive(Clone, Copy, Debug, PartialEq, Eq, Structural)]
pub enum Conversion {
    /// From submitted container audio to mono 16-bit PCM at 24 kHz, in a
    /// WAV container.
    Normalize,
    /// From WAV to mono MP3 at 24 kHz and 128 kbit/s.
    Deliver,
}

/// The arguments that ask the transcoder for a conversion from the file at
/// `input` to the file at `output`, overwriting it.
pub open spec fn arguments_text(
    conversion: Conversion,
    input: Seq<char>,
    output: Seq<char>,
) -> Seq<Seq<char>> {
    match conversion {
        Conversion::Normalize => seq![
            "-i"@,
            input,
            "-ac"@,
            "1"@,
            "-ar"@,
            "24000"@,
            "-acodec"@,
            "pcm_s16le"@,
            "-y"@,
            output,
        ],
        Conversion::Deliver => seq![
            "-i"@,
            input,
            "-acodec"@,
            "mp3"@,
            "-b:a"@,
            "128k"@,
            "-ac"@,
            "1"@,
            "-ar"@,
            "24000"@,
            "-y"@,
            output,
        ],
    }
}

/// Appends one argument.
fn push_argument(arguments: &mut Vec<String>, argument: &str)
    ensures
        final(arguments).deep_view() == old(arguments).deep_view().push(argument@),
{
    arguments.push(argument.to_owned());
    assert(arguments.deep_view() =~= old(arguments).deep_view().push(argument@));
}

/// Builds the arguments of a conversion.
pub fn transcoder_arguments(
    conversion: Conversion,
    input: &str,
    output: &str,
) -> (arguments: Vec<String>)
    ensures
        arguments.deep_view() == arguments_text(conversion, input@, output@),
{
    let mut arguments: Vec<String> = Vec::new();
    assert(arguments.deep_view() =~= Seq::<Seq<char>>::empty());
    push_argument(&mut arguments, "-i");
    push_argument(&mut arguments, input);
    match conversion {
        Conversion::Normalize => {
            push_argument(&mut arguments, "-ac");
            push_argument(&mut arguments, "1");
            push_argument(&mut arguments, "-ar");
            push_argument(&mut arguments, "24000");
            push_argument(&mut arguments, "-acodec");
            push_argument(&mut arguments, "pcm_s16le");
        },
        Conversion::Deliver => {
            push_argument(&mut arguments, "-acodec");
            push_argument(&mut arguments, "mp3");
            push_argument(&mut arguments, "-b:a");
            push_argument(&mut arguments, "128k");
            push_argument(&mut arguments, "-ac");
            push_argument(&mut arguments, "1");
            push_argument(&mut arguments, "-ar");
            push_argument(&mut arguments, "24000");
        },
    }
    push_argument(&mut arguments, "-y");
    push_argument(&mut arguments, output);
    assert(arguments.deep_view() =~= arguments_text(conversion, input@, output@));
    arguments
}

/// How a run of the transcoder ended.
#[derive(Debug, PartialEq, Eq)]
pub enum TranscoderExit {
    /// The program gave no exit: it could not be started, or it was not
    /// waited for to its end. The text says why.
    NoExit(String),
    /// The program ran and exited, with or without success, and wrote
    /// `diagnostics` to its error stream.
    Exited { success: bool, diagnostics: Vec<u8> },
}

/// A [`TranscoderExit`] as contracts see it.
pub enum TranscoderExitView {
    NoExit(Seq<char>),
    Exited { success: bool, diagnostics: Seq<u8> },
}

impl View for TranscoderExit {
    type V = TranscoderExitView;

    open spec fn view(&self) -> TranscoderExitView {
        match self {
            TranscoderExit::NoExit(reason) => TranscoderExitView::NoExit(reason@),
            TranscoderExit::Exited { success, diagnostics } => TranscoderExitView::Exited {
                success: *success,
                diagnostics: diagnostics@,
            },
        }
    }
}

/// What an exit means: nothing is wrong after a successful exit; a failed
/// exit is a `Transcode` error that carries the diagnostics as text; a
/// program that gave no exit is a `Transcode` error that carries the reason.
pub open spec fn exit_verdict(exit: TranscoderExitView) -> Option<AudioErrorView> {
    match exit {
        TranscoderExitView::NoExit(reason) => Some(AudioErrorView::Transcode(reason)),
        TranscoderExitView::Exited { success, diagnostics } => if success {
            None
        } else {
            Some(AudioErrorView::Transcode(utf8_lossy(diagnostics)))
        },
    }
}

/// Whether the diagnostics of a failed exit are read verbatim.
pub open spec fn diagnostics_read_verbatim(exit: TranscoderExitView) -> bool {
    exit matches TranscoderExitView::Exited { success, diagnostics } ==> success || read_verbatim(
        diagnostics,
    )
}

/// Judges a run of the transcoder. Diagnostics in valid UTF-8 are carried
/// as they stand.
pub fn transcode_outcome(exit: &TranscoderExit) -> (outcome: Result<(), AudioError>)
    ensures
        match outcome {
            Ok(_) => exit_verdict(exit@) is None,
            Err(error) => exit_verdict(exit@) == Some(error@),
        },
        diagnostics_read_verbatim(exit@),
{
    match exit {
        TranscoderExit::NoExit(reason) => Err(AudioError::Transcode(reason.clone())),
        TranscoderExit::Exited { success, diagnostics } => {
            if *success {
                Ok(())
            } else {
                Err(AudioError::Transcode(from_utf8_lossy(diagnostics.as_slice())))
            }
        },
    }
}

/// Where a conversion stands.
#[derive(Clone, Copy, Debug, PartialEq, Eq, Structural)]
pub enum TranscodingStage {
    /// No audio has been submitted yet.
    Ready,
    /// The audio is being written to the input file.
    Writing,
    /// The program is running.
    Running,
    /// The converted audio is being read back.
    Reading,
    /// The conversion has ended, with the converted audio or with an error.
    Finished,
}

/// What the caller reports to a conversion.
#[derive(Debug, PartialEq, Eq)]
pub enum TranscoderEvent {
    /// This audio is to be converted.
    Submit(Vec<u8>),
    /// The audio was written to the input file.
    InputWritten,
    /// Writing the input file failed; the text says why.
    WriteFailed(String),
    /// The program ended.
    Exited(TranscoderExit),
    /// The output file was read; these are its bytes.
    OutputRead(Vec<u8>),
    /// Reading the output file failed; the text says why.
    ReadFailed(String),
}

/// Outside work that a conversion asks for.
#[derive(Debug, PartialEq, Eq)]
pub enum TranscoderTask {
    /// Write `bytes` to the file at `path`; report `InputWritten` or
    /// `WriteFailed`.
    WriteInput { path: String, bytes: Vec<u8> },
    /// Run `program` with `arguments` to its end; report `Exited`.
    Run { program: String, arguments: Vec<String> },
    /// Read the file at `path`; report `OutputRead` or `ReadFailed`.
    ReadOutput { path: String },
}

/// What a step of a conversion comes to.
#[derive(Debug, PartialEq, Eq)]
pub enum TranscoderOutcome {
    /// Nothing: the event did not answer what the conversion waits for.
    Idle,
    /// The caller is to do this next.
    Task(TranscoderTask),
    /// The conversion is done. `audio` is the converted audio; the file at
    /// `kept` still holds it, and is the caller's to discard.
    Converted { audio: Vec<u8>, kept: String },
    /// The conversion has failed.
    Failed(AudioError),
}

/// One step of a conversion: first the scratch files under `discard` are
/// to be removed, without regard to whether that succeeds; then the outcome
/// applies.
#[derive(Debug, PartialEq, Eq)]
pub struct TranscoderStep {
    pub discard: Vec<String>,
    pub outcome: TranscoderOutcome,
}

/// A [`TranscoderEvent`] as contracts see it.
pub enum TranscoderEventView {
    Submit(Seq<u8>),
    InputWritten,
    WriteFailed(Seq<char>),
    Exited(TranscoderExitView),
    OutputRead(Seq<u8>),
    ReadFailed(Seq<char>),
}

/// A [`TranscoderTask`] as contracts see it.
pub enum TranscoderTaskView {
    WriteInput { path: Seq<char>, bytes: Seq<u8> },
    Run { program: Seq<char>, arguments: Seq<Seq<char>> },
    ReadOutput { path: Seq<char> },
}

/// A [`TranscoderOutcome`] as contracts see it.
pub enum TranscoderOutcomeView {
    Idle,
    Task(TranscoderTaskView),
    Converted { audio: Seq<u8>, kept: Seq<char> },
    Failed(AudioErrorView),
}

/// A [`TranscoderStep`] as contracts see it.
pub struct TranscoderStepView {
    pub discard: Seq<Seq<char>>,
    pub outcome: TranscoderOutcomeView,
}

impl View for TranscoderEvent {
    type V = TranscoderEventView;

    open spec fn view(&self) -> TranscoderEventView {
        match self {
            TranscoderEvent::Submit(audio) => TranscoderEventView::Submit(audio@),
            TranscoderEvent::InputWritten => TranscoderEventView::InputWritten,
            TranscoderEvent::WriteFailed(reason) => TranscoderEventView::WriteFailed(reason@),
            TranscoderEvent::Exited(exit) => TranscoderEventView::Exited(exit@),
            TranscoderEvent::OutputRead(audio) => TranscoderEventView::OutputRead(audio@),
            TranscoderEvent::ReadFailed(reason) => TranscoderEventView::ReadFailed(reason@),
        }
    }
}

impl View for TranscoderTask {
    type V = TranscoderTaskView;

    open spec fn view(&self) -> TranscoderTaskView {
        match self {
            TranscoderTask::WriteInput { path, bytes } => TranscoderTaskView::WriteInput {
                path: path@,
                bytes: bytes@,
            },
            TranscoderTask::Run { program, arguments } => TranscoderTaskView::Run {
                program: program@,
                arguments: arguments.deep_view(),
            },
            TranscoderTask::ReadOutput { path } => TranscoderTaskView::ReadOutput { path: path@ },
        }
    }
}

impl View for TranscoderOutcome {
    type V = TranscoderOutcomeView;

    open spec fn view(&self) -> TranscoderOutcomeView {
        match self {
            TranscoderOutcome::Idle => TranscoderOutcomeView::Idle,
            TranscoderOutcome::Task(task) => TranscoderOutcomeView::Task(task@),
            TranscoderOutcome::Converted { audio, kept } => TranscoderOutcomeView::Converted {
                audio: audio@,
                kept: kept@,
            },
            TranscoderOutcome::Failed(error) => TranscoderOutcomeView::Failed(error@),
        }
    }
}

impl View for TranscoderStep {
    type V = TranscoderStepView;

    open spec fn view(&self) -> TranscoderStepView {
        TranscoderStepView { discard: self.discard.deep_view(), outcome: self.outcome@ }
    }
}

/// One conversion: its kind, its scratch files, and where it stands.
#[derive(Debug)]
pub struct Transcoding {
    conversion: Conversion,
    scratch: ScratchPaths,
    stage: TranscodingStage,
}

/// A [`Transcoding`] as contracts see it.
pub struct TranscodingView {
    pub conversion: Conversion,
    pub scratch: ScratchPathsView,
    pub stage: TranscodingStage,
}

impl View for Transcoding {
    type V = TranscodingView;

    closed spec fn view(&self) -> TranscodingView {
        TranscodingView { conversion: self.conversion, scratch: self.scratch@, stage: self.stage }
    }
}

/// A conversion that waits for its audio.
pub open spec fn ready(conversion: Conversion, scratch: ScratchPathsView) -> TranscodingView {
    TranscodingView { conversion, scratch, stage: TranscodingStage::Ready }
}

/// The step that changes nothing.
pub open spec fn stay(job: TranscodingView) -> (TranscodingView, TranscoderStepView) {
    (job, TranscoderStepView { discard: Seq::empty(), outcome: TranscoderOutcomeView::Idle })
}

/// The step to `stage`.
pub open spec fn move_to(
    job: TranscodingView,
    stage: TranscodingStage,
    discard: Seq<Seq<char>>,
    outcome: TranscoderOutcomeView,
) -> (TranscodingView, TranscoderStepView) {
    (TranscodingView { stage, ..job }, TranscoderStepView { discard, outcome })
}

/// The conversion as a machine: the state after an event, and what the
/// event comes to.
///
/// Submitted audio is written to the input file, the program is run from
/// the input file to the output file, and the output file is read back.
/// The input file is discarded as soon as the program has ended. A failure
/// ends the conversion and discards what may be left of either file; a
/// write or read that fails is an `Io` error, a program that fails or does
/// not start is a `Transcode` error. An event that does not answer what the
/// conversion waits for changes nothing.
pub open spec fn transcoding_advance(job: TranscodingView, event: TranscoderEventView) -> (
    TranscodingView,
    TranscoderStepView,
) {
    match (job.stage, event) {
        (TranscodingStage::Ready, TranscoderEventView::Submit(audio)) => move_to(
            job,
            TranscodingStage::Writing,
            Seq::empty(),
            TranscoderOutcomeView::Task(
                TranscoderTaskView::WriteInput { path: job.scratch.input, bytes: audio },
            ),
        ),
        (TranscodingStage::Writing, TranscoderEventView::InputWritten) => move_to(
            job,
            TranscodingStage::Running,
            Seq::empty(),
            TranscoderOutcomeView::Task(
                TranscoderTaskView::Run {
                    program: TRANSCODER@,
                    arguments: arguments_text(
                        job.conversion,
                        job.scratch.input,
                        job.scratch.output,
                    ),
                },
            ),
        ),
        (TranscodingStage::Writing, TranscoderEventView::WriteFailed(reason)) => move_to(
            job,
            TranscodingStage::Finished,
            seq![job.scratch.input],
            TranscoderOutcomeView::Failed(AudioErrorView::Io(reason)),
        ),
        (TranscodingStage::Running, TranscoderEventView::Exited(exit)) => match exit_verdict(exit) {
            Some(error) => move_to(
                job,
                TranscodingStage::Finished,
                seq![job.scratch.input, job.scratch.output],
                TranscoderOutcomeView::Failed(error),
            ),
            None => move_to(
                job,
                TranscodingStage::Reading,
                seq![job.scratch.input],
                TranscoderOutcomeView::Task(
                    TranscoderTaskView::ReadOutput { path: job.scratch.output },
                ),
            ),
        },
        (TranscodingStage::Reading, TranscoderEventView::OutputRead(audio)) => move_to(
            job,
            TranscodingStage::Finished,
            Seq::empty(),
            TranscoderOutcomeView::Converted { audio, kept: job.scratch.output },
        ),
        (TranscodingStage::Reading, TranscoderEventView::ReadFailed(reason)) => move_to(
            job,
            TranscodingStage::Finished,
            seq![job.scratch.output],
            TranscoderOutcomeView::Failed(AudioErrorView::Io(reason)),
        ),
        _ => stay(job),
    }
}

/// Whether the diagnostics that a step turns into the text of an error are
/// read verbatim.
pub open spec fn failure_read_verbatim(job: TranscodingView, event: TranscoderEventView) -> bool {
    job.stage is Running ==> (event matches TranscoderEventView::Exited(exit)
        ==> diagnostics_read_verbatim(exit))
}

impl Transcoding {
    /// A conversion of the given kind that waits for its audio. The scratch
    /// files must be the conversion's own.
    pub fn new(conversion: Conversion, scratch: ScratchPaths) -> (job: Transcoding)
        ensures
            job@ == ready(conversion, scratch@),
    {
        Transcoding { conversion, scratch, stage: TranscodingStage::Ready }
    }

    /// Where the conversion stands.
    pub fn stage(&self) -> (stage: TranscodingStage)
        ensures
            stage == self@.stage,
    {
        self.stage
    }

    /// The file that holds the converted audio once the conversion is done.
    pub fn output(&self) -> (path: &str)
        ensures
            path@ == self@.scratch.output,
    {
        self.scratch.output.as_str()
    }

    fn stay(self) -> (next: (Transcoding, TranscoderStep))
        ensures
            (next.0@, next.1@) == stay(self@),
    {
        (self, TranscoderStep { discard: no_paths(), outcome: TranscoderOutcome::Idle })
    }

    fn move_to(
        self,
        stage: TranscodingStage,
        discard: Vec<String>,
        outcome: TranscoderOutcome,
    ) -> (next: (Transcoding, TranscoderStep))
        ensures
            (next.0@, next.1@) == move_to(self@, stage, discard.deep_view(), outcome@),
    {
        let Transcoding { conversion, scratch, stage: _ } = self;
        (Transcoding { conversion, scratch, stage }, TranscoderStep { discard, outcome })
    }

    /// Takes an event, as [`transcoding_advance`] lays down. Diagnostics in
    /// valid UTF-8 become the text of the error as they stand.
    pub fn step(self, event: TranscoderEvent) -> (next: (Transcoding, TranscoderStep))
        ensures
            (next.0@, next.1@) == transcoding_advance(self@, event@),
            failure_read_verbatim(self@, event@),
    {
        match (self.stage, event) {
            (TranscodingStage::Ready, TranscoderEvent::Submit(audio)) => {
                let path = self.scratch.input.clone();
                self.move_to(
                    TranscodingStage::Writing,
                    no_paths(),
                    TranscoderOutcome::Task(TranscoderTask::WriteInput { path, bytes: audio }),
                )
            },
            (TranscodingStage::Writing, TranscoderEvent::InputWritten) => {
                let arguments = transcoder_arguments(
                    self.conversion,
                    self.scratch.input.as_str(),
                    self.scratch.output.as_str(),
                );
                self.move_to(
                    TranscodingStage::Running,
                    no_paths(),
                    TranscoderOutcome::Task(
                        TranscoderTask::Run { program: TRANSCODER.to_owned(), arguments },
                    ),
                )
            },
            (TranscodingStage::Writing, TranscoderEvent::WriteFailed(reason)) => {
                let discard = one_path(self.scratch.input.as_str());
                self.move_to(
                    TranscodingStage::Finished,
                    discard,
                    TranscoderOutcome::Failed(AudioError::Io(reason)),
                )
            },
            (TranscodingStage::Running, TranscoderEvent::Exited(exit)) => {
                match transcode_outcome(&exit) {
                    Err(error) => {
                        let discard = two_paths(
                            self.scratch.input.as_str(),
                            self.scratch.output.as_str(),
                        );
                        self.move_to(
                            TranscodingStage::Finished,
                            discard,
                            TranscoderOutcome::Failed(error),
                        )
                    },
                    Ok(_) => {
                        let discard = one_path(self.scratch.input.as_str());
                        let path = self.scratch.output.clone();
                        self.move_to(
                            TranscodingStage::Reading,
                            discard,
                            TranscoderOutcome::Task(TranscoderTask::ReadOutput { path }),
                        )
                    },
                }
            },
            (TranscodingStage::Reading, TranscoderEvent::OutputRead(audio)) => {
                let kept = self.scratch.output.clone();
                self.move_to(
                    TranscodingStage::Finished,
                    no_paths(),
                    TranscoderOutcome::Converted { audio, kept },
                )
            },
            (TranscodingStage::Reading, TranscoderEvent::ReadFailed(reason)) => {
                let discard = one_path(self.scratch.output.as_str());
                self.move_to(
                    TranscodingStage::Finished,
                    discard,
                    TranscoderOutcome::Failed(AudioError::Io(reason)),
                )
            },
            _ => self.stay(),
        }
    }
}

/// How far a conversion has come.
pub open spec fn transcoding_rank(stage: TranscodingStage) -> int {
    match stage {
        TranscodingStage::Ready => 0,
        TranscodingStage::Writing => 1,
        TranscodingStage::Running => 2,
        TranscodingStage::Reading => 3,
        TranscodingStage::Finished => 4,
    }
}

/// The scratch files that may lie on disk while a conversion is in a
/// stage. The output of a conversion that is done is the caller's.
pub open spec fn transcoding_scratch(job: TranscodingView) -> Set<Seq<char>> {
    match job.stage {
        TranscodingStage::Writing => set![job.scratch.input],
        TranscodingStage::Running => set![job.scratch.input, job.scratch.output],
        TranscodingStage::Reading => set![job.scratch.output],
        _ => Set::empty(),
    }
}

/// The scratch file that an outcome hands over to the caller: the output,
/// with the converted audio.
pub open spec fn handed_over(outcome: TranscoderOutcomeView) -> Set<Seq<char>> {
    match outcome {
        TranscoderOutcomeView::Converted { kept, .. } => set![kept],
        _ => Set::empty(),
    }
}

/// A step of a conversion either changes nothing and comes to nothing, or
/// moves the conversion forward. It ends with the converted audio or with
/// an error, and hands out tasks only while it goes on. A conversion that
/// has ended takes no more events.
pub proof fn each_conversion_step_moves_forward(job: TranscodingView, event: TranscoderEventView)
    ensures
        ({
            let (next, step) = transcoding_advance(job, event);
            ||| (next, step) == stay(job)
            ||| {
                &&& transcoding_rank(job.stage) < transcoding_rank(next.stage)
                &&& next.conversion == job.conversion
                &&& next.scratch == job.scratch
                &&& !(step.outcome is Idle)
                &&& next.stage is Finished <==> step.outcome is Converted || step.outcome is Failed
            }
        }),
        job.stage is Finished ==> transcoding_advance(job, event) == stay(job),
{
}

/// A step of a conversion accounts for the scratch files: a file that may
/// lie on disk is discarded by the step, or may still lie there after it,
/// or is the output that is handed over with the converted audio. A task
/// touches no file but the conversion's own.
pub proof fn each_conversion_step_accounts_for_scratch(
    job: TranscodingView,
    event: TranscoderEventView,
)
    ensures
        ({
            let (next, step) = transcoding_advance(job, event);
            &&& forall|path: Seq<char>| #[trigger]
                transcoding_scratch(job).contains(path) ==> step.discard.contains(path)
                    || transcoding_scratch(next).contains(path)
                    || handed_over(step.outcome).contains(path)
            &&& step.outcome matches TranscoderOutcomeView::Task(
                TranscoderTaskView::WriteInput { path, .. },
            ) ==> path == job.scratch.input && transcoding_scratch(next).contains(path)
            &&& step.outcome matches TranscoderOutcomeView::Task(
                TranscoderTaskView::Run { arguments, .. },
            ) ==> arguments[1] == job.scratch.input && arguments.last() == job.scratch.output
                && transcoding_scratch(next).contains(job.scratch.output)
            &&& step.outcome matches TranscoderOutcomeView::Task(
                TranscoderTaskView::ReadOutput { path },
            ) ==> path == job.scratch.output
        }),
{
    // A list holds each of its items; no step lists more than two.
    let discard = transcoding_advance(job, event).1.discard;
    assert(discard.len() >= 1 ==> discard.contains(discard[0]));
    assert(discard.len() >= 2 ==> discard.contains(discard[1]));
}

} // verus!
