//! What holds of every run of the pipeline.

use vstd::prelude::*;
use crate::error::AudioErrorView;
use crate::language::is_supported;
use crate::codec::base64_encoded;
use crate::pipeline::{
    abort, advance, ignored, initial, ActionView, AudioRequestView, DirectiveView, EventView,
    PipelineView, Stage,
};
use crate::provider::{speech_result, transcription_result};
use crate::scratch::ScratchPathsView;
use crate::transcoder::{transcoding_rank, transcoding_scratch, TranscoderTaskView};

verus! {

/// How far a request has come along the pipeline. Within normalizing it
/// comes as far as the transcoder has; `Done` and `Error` lie at the end.
pub open spec fn progress(state: PipelineView) -> int {
    match state.stage {
        Stage::Validating => 0,
        Stage::Normalizing => transcoding_rank(state.normalizing.stage),
        Stage::Transcribing => 5,
        Stage::Generating => 6,
        Stage::Synthesizing => 7,
        Stage::Done => 8,
        Stage::Error => 8,
    }
}

/// How far along the pipeline the work of an action lies; 0 for `Idle`,
/// which is no work.
pub open spec fn action_rank(action: ActionView) -> int {
    match action {
        ActionView::Idle => 0,
        ActionView::Transcoder(TranscoderTaskView::WriteInput { .. }) => 1,
        ActionView::Transcoder(TranscoderTaskView::Run { .. }) => 2,
        ActionView::Transcoder(TranscoderTaskView::ReadOutput { .. }) => 3,
        ActionView::Transcribe(_) => 5,
        ActionView::Generate(_) => 6,
        ActionView::Synthesize(_) => 7,
        ActionView::Respond(_) => 8,
        ActionView::Fail(_) => 8,
    }
}

/// Whether an action is outside work: on the scratch files, by the
/// transcoder or by a provider.
pub open spec fn is_outside_work(action: ActionView) -> bool {
    1 <= action_rank(action) <= 7
}

/// The state after the events are taken one after another.
pub open spec fn state_after(state: PipelineView, events: Seq<EventView>) -> PipelineView
    decreases events.len(),
{
    if events.len() == 0 {
        state
    } else {
        advance(state_after(state, events.drop_last()), events.last()).0
    }
}

/// The directive handed out for the event at `index`, when the events are
/// taken one after another.
pub open spec fn directive_at(
    state: PipelineView,
    events: Seq<EventView>,
    index: int,
) -> DirectiveView
    recommends
        0 <= index < events.len(),
{
    advance(state_after(state, events.take(index)), events[index]).1
}

/// The state after one more event is the state that the step for it gives.
pub proof fn state_after_one_more(state: PipelineView, events: Seq<EventView>, index: int)
    requires
        0 <= index < events.len(),
    ensures
        state_after(state, events.take(index + 1)) == advance(
            state_after(state, events.take(index)),
            events[index],
        ).0,
{
    let longer = events.take(index + 1);
    assert(longer.drop_last() =~= events.take(index));
    assert(longer.last() == events[index]);
}

/// A step either changes nothing and asks for nothing, or moves the machine
/// forward to the stage that its action belongs to. So no stage is entered
/// twice, and nothing is asked for twice.
pub proof fn each_step_moves_forward(state: PipelineView, event: EventView)
    ensures
        ({
            let (next, directive) = advance(state, event);
            ||| (next, directive) == ignored(state)
            ||| progress(state) < progress(next) && action_rank(directive.action) == progress(
                next,
            )
        }),
{
}

/// `Done` and `Error` absorb: once the machine has ended, no event changes
/// its state or has it ask for anything.
pub proof fn finished_is_final(state: PipelineView, event: EventView)
    requires
        state.stage is Done || state.stage is Error,
    ensures
        advance(state, event) == ignored(state),
{
}

/// The machine ends exactly when it answers: a step hands out `Respond`
/// where it enters `Done`, `Fail` where it enters `Error`, and neither
/// anywhere else.
pub proof fn answers_end_the_request(state: PipelineView, event: EventView)
    ensures
        ({
            let (next, directive) = advance(state, event);
            &&& directive.action is Respond <==> next.stage is Done && !(state.stage is Done)
            &&& directive.action is Fail <==> next.stage is Error && !(state.stage is Error)
        }),
{
}

/// The machine never moves backward.
pub proof fn stages_never_go_back(
    state: PipelineView,
    events: Seq<EventView>,
    earlier: int,
    later: int,
)
    requires
        0 <= earlier <= later <= events.len(),
    ensures
        progress(state_after(state, events.take(earlier))) <= progress(
            state_after(state, events.take(later)),
        ),
    decreases later - earlier,
{
    if earlier < later {
        stages_never_go_back(state, events, earlier, later - 1);
        state_after_one_more(state, events, later - 1);
        each_step_moves_forward(state_after(state, events.take(later - 1)), events[later - 1]);
    }
}

/// The stages run strictly one after another: of two actions handed out in
/// a run, the later belongs to a later stage. So no call is repeated, and a
/// provider is called only after the stages before it have succeeded.
pub proof fn actions_follow_the_stages(
    state: PipelineView,
    events: Seq<EventView>,
    earlier: int,
    later: int,
)
    requires
        0 <= earlier < later < events.len(),
        !(directive_at(state, events, earlier).action is Idle),
        !(directive_at(state, events, later).action is Idle),
    ensures
        action_rank(directive_at(state, events, earlier).action) < action_rank(
            directive_at(state, events, later).action,
        ),
{
    state_after_one_more(state, events, earlier);
    each_step_moves_forward(state_after(state, events.take(earlier)), events[earlier]);
    stages_never_go_back(state, events, earlier + 1, later);
    each_step_moves_forward(state_after(state, events.take(later)), events[later]);
}

/// Nothing follows an answer: once the response or an error has been handed
/// out, the machine asks for no work at all. A failed stage is not tried
/// again, and no stage after it is begun.
pub proof fn nothing_follows_an_answer(
    state: PipelineView,
    events: Seq<EventView>,
    earlier: int,
    later: int,
)
    requires
        0 <= earlier < later < events.len(),
        directive_at(state, events, earlier).action is Fail || directive_at(
            state,
            events,
            earlier,
        ).action is Respond,
    ensures
        directive_at(state, events, later) == (DirectiveView {
            discard: Seq::empty(),
            action: ActionView::Idle,
        }),
{
    state_after_one_more(state, events, earlier);
    each_step_moves_forward(state_after(state, events.take(earlier)), events[earlier]);
    stages_never_go_back(state, events, earlier + 1, later);
    each_step_moves_forward(state_after(state, events.take(later)), events[later]);
    finished_is_final(state_after(state, events.take(later)), events[later]);
}

/// A request in an unsupported language fails on `Start` with
/// `InvalidLanguage`, before its audio is looked at.
pub proof fn unsupported_language_fails_at_once(
    request: AudioRequestView,
    credential: Option<Seq<char>>,
    scratch: ScratchPathsView,
)
    requires
        !is_supported(request.language),
    ensures
        advance(initial(request, credential, scratch), EventView::Start) == abort(
            initial(request, credential, scratch),
            Seq::empty(),
            AudioErrorView::InvalidLanguage,
        ),
{
}

/// A request in an unsupported language causes no outside work, whatever
/// the machine is told: it never asks for a file, for the transcoder or for
/// a provider, and it answers with nothing but `InvalidLanguage`.
pub proof fn unsupported_language_makes_no_call(
    request: AudioRequestView,
    credential: Option<Seq<char>>,
    scratch: ScratchPathsView,
    events: Seq<EventView>,
    index: int,
)
    requires
        !is_supported(request.language),
        0 <= index < events.len(),
    ensures
        ({
            let directive = directive_at(initial(request, credential, scratch), events, index);
            &&& !is_outside_work(directive.action)
            &&& directive.discard == Seq::<Seq<char>>::empty()
            &&& directive.action is Idle || directive.action == ActionView::Fail(
                AudioErrorView::InvalidLanguage,
            )
        }),
{
    let start = initial(request, credential, scratch);
    refused_request_stays_refused(start, events.take(index));
}

/// A machine whose request names no language is still in `Validating` or
/// already in `Error`, whatever it has been told.
proof fn refused_request_stays_refused(start: PipelineView, events: Seq<EventView>)
    requires
        start.stage is Validating,
        !is_supported(start.request.language),
    ensures
        ({
            let state = state_after(start, events);
            &&& state.stage is Validating || state.stage is Error
            &&& state.request == start.request
        }),
    decreases events.len(),
{
    if events.len() > 0 {
        refused_request_stays_refused(start, events.drop_last());
    }
}

/// The request, the credential and the scratch files of a machine never
/// change.
pub proof fn configuration_is_kept(state: PipelineView, events: Seq<EventView>)
    ensures
        state_after(state, events).request == state.request,
        state_after(state, events).credential == state.credential,
        state_after(state, events).normalizing.scratch == state.normalizing.scratch,
        state_after(state, events).normalizing.conversion == state.normalizing.conversion,
    decreases events.len(),
{
    if events.len() > 0 {
        configuration_is_kept(state, events.drop_last());
    }
}

/// The scratch files that may lie on disk while the machine is in a state:
/// the transcoder's while it normalizes, and the normalized audio until
/// transcribing has ended.
pub open spec fn scratch_in_use(state: PipelineView) -> Set<Seq<char>> {
    match state.stage {
        Stage::Normalizing => transcoding_scratch(state.normalizing),
        Stage::Transcribing => set![state.normalizing.scratch.output],
        _ => Set::empty(),
    }
}

/// Each step accounts for the scratch files: a file in use is discarded by
/// the step or still in use after it; the file that the step has written or
/// transcoded into is in use after it; nothing but the machine's own two
/// files is ever written, read, transcoded or discarded.
pub proof fn each_step_accounts_for_scratch(state: PipelineView, event: EventView)
    ensures
        ({
            let (next, directive) = advance(state, event);
            &&& forall|path: Seq<char>| #[trigger]
                scratch_in_use(state).contains(path) ==> directive.discard.contains(path)
                    || scratch_in_use(next).contains(path)
            &&& forall|i: int|
                0 <= i < directive.discard.len() ==> #[trigger] directive.discard[i]
                    == state.normalizing.scratch.input || directive.discard[i]
                    == state.normalizing.scratch.output
            &&& directive.action matches ActionView::Transcoder(
                TranscoderTaskView::WriteInput { path, .. },
            ) ==> path == state.normalizing.scratch.input && scratch_in_use(next).contains(path)
            &&& directive.action matches ActionView::Transcoder(
                TranscoderTaskView::Run { arguments, .. },
            ) ==> arguments[1] == state.normalizing.scratch.input && arguments.last()
                == state.normalizing.scratch.output && scratch_in_use(next).contains(
                state.normalizing.scratch.output,
            )
            &&& directive.action matches ActionView::Transcoder(
                TranscoderTaskView::ReadOutput { path },
            ) ==> path == state.normalizing.scratch.output
        }),
{
    // A list holds each of its items; no step lists more than two.
    let discard = advance(state, event).1.discard;
    assert(discard.len() >= 1 ==> discard.contains(discard[0]));
    assert(discard.len() >= 2 ==> discard.contains(discard[1]));
}

/// When the machine has ended, no scratch file is in use.
pub proof fn finished_uses_no_scratch(state: PipelineView)
    requires
        state.stage is Done || state.stage is Error,
    ensures
        scratch_in_use(state) == Set::<Seq<char>>::empty(),
{
}

/// A scratch file in use at some point of a run that ends is discarded at
/// that point or later.
pub proof fn scratch_in_use_is_discarded(
    state: PipelineView,
    events: Seq<EventView>,
    from: int,
    path: Seq<char>,
) -> (at: int)
    requires
        0 <= from <= events.len(),
        state_after(state, events).stage is Done || state_after(state, events).stage is Error,
        scratch_in_use(state_after(state, events.take(from))).contains(path),
    ensures
        from <= at < events.len(),
        directive_at(state, events, at).discard.contains(path),
    decreases events.len() - from,
{
    if from == events.len() {
        assert(events.take(from) =~= events);
        finished_uses_no_scratch(state_after(state, events));
        from
    } else {
        let now = state_after(state, events.take(from));
        each_step_accounts_for_scratch(now, events[from]);
        state_after_one_more(state, events, from);
        if directive_at(state, events, from).discard.contains(path) {
            from
        } else {
            scratch_in_use_is_discarded(state, events, from + 1, path)
        }
    }
}

/// The scratch file that a task brings about: the file that is written, or
/// the file that the transcoder writes, which its last argument names.
pub open spec fn file_made_by(action: ActionView) -> Option<Seq<char>> {
    match action {
        ActionView::Transcoder(TranscoderTaskView::WriteInput { path, .. }) => Some(path),
        ActionView::Transcoder(TranscoderTaskView::Run { arguments, .. }) => Some(
            arguments.last(),
        ),
        _ => None,
    }
}

/// Nothing is left behind: in a run that ends, in `Done` or in `Error`,
/// every scratch file that the machine had written, or had the transcoder
/// write, is discarded afterwards. `made` is the place in the run where the
/// file came to be; the result is the place where it is discarded.
pub proof fn nothing_is_left_behind(
    state: PipelineView,
    events: Seq<EventView>,
    made: int,
) -> (discarded: int)
    requires
        0 <= made < events.len(),
        state_after(state, events).stage is Done || state_after(state, events).stage is Error,
        file_made_by(directive_at(state, events, made).action) is Some,
    ensures
        made < discarded < events.len(),
        directive_at(state, events, discarded).discard.contains(
            file_made_by(directive_at(state, events, made).action)->0,
        ),
{
    let before = state_after(state, events.take(made));
    each_step_accounts_for_scratch(before, events[made]);
    state_after_one_more(state, events, made);
    configuration_is_kept(state, events.take(made));
    configuration_is_kept(state, events.take(made + 1));
    let path = file_made_by(directive_at(state, events, made).action)->0;
    scratch_in_use_is_discarded(state, events, made + 1, path)
}

/// Whether the event at `index` of a run is the transcription provider's
/// reply with this transcript.
pub open spec fn transcribed_at(
    state: PipelineView,
    events: Seq<EventView>,
    index: int,
    transcript: Seq<char>,
) -> bool {
    &&& 0 <= index < events.len()
    &&& state_after(state, events.take(index)).stage is Transcribing
    &&& events[index] matches EventView::ProviderReplied(reply)
    &&& transcription_result(reply) == Ok::<Seq<char>, AudioErrorView>(transcript)
}

/// Whether the event at `index` of a run is the synthesis provider's reply
/// with this audio.
pub open spec fn synthesized_at(
    state: PipelineView,
    events: Seq<EventView>,
    index: int,
    audio: Seq<u8>,
) -> bool {
    &&& 0 <= index < events.len()
    &&& state_after(state, events.take(index)).stage is Synthesizing
    &&& events[index] matches EventView::ProviderReplied(reply)
    &&& speech_result(reply) == Ok::<Seq<u8>, AudioErrorView>(audio)
}

/// While a reply is generated or spoken, the transcript that the machine
/// keeps is the one that the transcription provider gave before.
proof fn kept_transcript_was_transcribed(state: PipelineView, events: Seq<EventView>) -> (index:
    int)
    requires
        state.stage is Validating,
        state_after(state, events).stage is Generating || state_after(
            state,
            events,
        ).stage is Synthesizing,
    ensures
        transcribed_at(state, events, index, state_after(state, events).transcript),
    decreases events.len(),
{
    let before = state_after(state, events.drop_last());
    assert(events.take(events.len() - 1) =~= events.drop_last());
    if before.stage is Transcribing {
        events.len() - 1
    } else {
        let index = kept_transcript_was_transcribed(state, events.drop_last());
        assert(events.drop_last().take(index) =~= events.take(index));
        index
    }
}

/// A response pairs the transcript with the spoken reply: its transcript is
/// what the transcription provider made of the submitted speech, not the
/// reply to it, and its audio is the base64 text of what the synthesis
/// provider answered last. `responded` is the place in the run where the
/// response is handed out; the result is the place of the transcription.
pub proof fn response_pairs_transcript_and_speech(
    state: PipelineView,
    events: Seq<EventView>,
    responded: int,
) -> (transcribed: int)
    requires
        state.stage is Validating,
        0 <= responded < events.len(),
        directive_at(state, events, responded).action is Respond,
    ensures
        transcribed < responded,
        ({
            let response = directive_at(state, events, responded).action->Respond_0;
            &&& transcribed_at(state, events, transcribed, response.transcript)
            &&& exists|audio: Seq<u8>| #[trigger]
                synthesized_at(state, events, responded, audio) && response.audio
                    == base64_encoded(audio)
        }),
{
    let before = events.take(responded);
    let response = directive_at(state, events, responded).action->Respond_0;
    let transcribed = kept_transcript_was_transcribed(state, before);
    assert(before.take(transcribed) =~= events.take(transcribed));
    let audio = speech_result(events[responded]->ProviderReplied_0)->Ok_0;
    assert(synthesized_at(state, events, responded, audio));
    transcribed
}

} // verus!
