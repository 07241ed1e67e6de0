use hearthly::error::AudioError;
use hearthly::persona::get_language_instructions;
use hearthly::language::Language;
use hearthly::pipeline::{
    assemble, validate, Action, AudioRequest, AudioResponse, Directive, Event, Pipeline, Stage,
};
use hearthly::provider::{ChatRequest, ProviderReply, SpeechRequest, TranscriptionRequest};
use hearthly::scratch::ScratchPaths;
use hearthly::transcoder::{TranscoderEvent, TranscoderExit, TranscoderTask};

const INPUT: &str = "scratch/request-7-input.webm";
const OUTPUT: &str = "scratch/request-7-output.wav";
const WEBM: &[u8] = &[0x1A, 0x45, 0xDF, 0xA3, 0x9F, 0x42, 0x86, 0x81, 0x01];
const WEBM_BASE64: &str = "GkXfo59ChoEB";
const WAV: &[u8] = b"RIFF\x24\x00\x00\x00WAVEfmt ";
const MP3: &[u8] = &[0xFF, 0xFB, 0x90, 0x00];

fn request(language: &str) -> AudioRequest {
    AudioRequest {
        audio: WEBM_BASE64.to_string(),
        language: language.to_string(),
        genz_mode: false,
        sarcastic_mode: false,
        shenanigan_mode: false,
        seductive_mode: false,
    }
}

fn scratch() -> ScratchPaths {
    ScratchPaths { input: INPUT.to_string(), output: OUTPUT.to_string() }
}

fn machine(language: &str) -> Pipeline {
    Pipeline::new(request(language), Some("sk-test".to_string()), scratch())
}

fn answered(status: u16, body: &[u8]) -> Event {
    Event::ProviderReplied(ProviderReply::Answered { status, body: body.to_vec() })
}

fn exited(success: bool, diagnostics: &[u8]) -> Event {
    Event::Transcoder(TranscoderEvent::Exited(TranscoderExit::Exited {
        success,
        diagnostics: diagnostics.to_vec(),
    }))
}

fn input_written() -> Event {
    Event::Transcoder(TranscoderEvent::InputWritten)
}

fn write_failed(reason: &str) -> Event {
    Event::Transcoder(TranscoderEvent::WriteFailed(reason.to_string()))
}

fn output_read(audio: &[u8]) -> Event {
    Event::Transcoder(TranscoderEvent::OutputRead(audio.to_vec()))
}

fn read_failed(reason: &str) -> Event {
    Event::Transcoder(TranscoderEvent::ReadFailed(reason.to_string()))
}

fn step(pipeline: Pipeline, event: Event) -> (Pipeline, Directive) {
    assert!(pipeline.admits(&event));
    pipeline.step(event)
}

/// Takes the events in turn and hands back the machine and every directive.
fn run(mut pipeline: Pipeline, events: Vec<Event>) -> (Pipeline, Vec<Directive>) {
    let mut directives = Vec::new();
    for event in events {
        let (next, directive) = step(pipeline, event);
        pipeline = next;
        directives.push(directive);
    }
    (pipeline, directives)
}

fn is_call(action: &Action) -> bool {
    matches!(
        action,
        Action::Transcoder(_) | Action::Transcribe(_) | Action::Generate(_) | Action::Synthesize(_)
    )
}

fn is_provider_call(action: &Action) -> bool {
    matches!(action, Action::Transcribe(_) | Action::Generate(_) | Action::Synthesize(_))
}

fn paths(names: &[&str]) -> Vec<String> {
    names.iter().map(|name| name.to_string()).collect()
}

fn idle() -> Directive {
    Directive { discard: vec![], action: Action::Idle }
}

fn happy_events() -> Vec<Event> {
    vec![
        Event::Start,
        input_written(),
        exited(true, b"frame=  1"),
        output_read(WAV),
        answered(200, br#"{"text": "hello"}"#),
        answered(200, br#"{"choices": [{"message": {"content": "hi there"}}]}"#),
        answered(200, MP3),
    ]
}

#[test]
fn a_new_machine_is_validating() {
    let pipeline = machine("en");
    assert_eq!(pipeline.stage(), Stage::Validating);
    assert!(!pipeline.is_finished());
}

#[test]
fn the_whole_pipeline_answers_with_transcript_and_audio() {
    let (pipeline, directives) = run(machine("en"), happy_events());
    assert_eq!(pipeline.stage(), Stage::Done);
    assert!(pipeline.is_finished());
    assert_eq!(directives.len(), 7);
    assert_eq!(
        directives[0],
        Directive {
            discard: vec![],
            action: Action::Transcoder(TranscoderTask::WriteInput {
                path: INPUT.to_string(),
                bytes: WEBM.to_vec(),
            }),
        }
    );
    assert_eq!(
        directives[1],
        Directive {
            discard: vec![],
            action: Action::Transcoder(TranscoderTask::Run {
                program: "ffmpeg".to_string(),
                arguments: paths(&[
                    "-i", INPUT, "-ac", "1", "-ar", "24000", "-acodec", "pcm_s16le", "-y", OUTPUT
                ]),
            }),
        }
    );
    assert_eq!(
        directives[2],
        Directive {
            discard: paths(&[INPUT]),
            action: Action::Transcoder(TranscoderTask::ReadOutput { path: OUTPUT.to_string() }),
        }
    );
    assert_eq!(
        directives[3],
        Directive {
            discard: vec![],
            action: Action::Transcribe(TranscriptionRequest {
                url: "https://api.openai.com/v1/audio/transcriptions".to_string(),
                authorization: "Bearer sk-test".to_string(),
                model: "whisper-1".to_string(),
                language: "en".to_string(),
                file_name: "audio.wav".to_string(),
                mime_type: "audio/wav".to_string(),
                audio: WAV.to_vec(),
            }),
        }
    );
    assert_eq!(
        directives[4],
        Directive {
            discard: paths(&[OUTPUT]),
            action: Action::Generate(ChatRequest {
                url: "https://api.openai.com/v1/chat/completions".to_string(),
                authorization: "Bearer sk-test".to_string(),
                model: "gpt-4o-mini".to_string(),
                system: get_language_instructions("en", false, false, false, false).unwrap(),
                user: "hello".to_string(),
                temperature_tenths: 7,
            }),
        }
    );
    assert_eq!(
        directives[5],
        Directive {
            discard: vec![],
            action: Action::Synthesize(SpeechRequest {
                url: "https://api.openai.com/v1/audio/speech".to_string(),
                authorization: "Bearer sk-test".to_string(),
                model: "tts-1".to_string(),
                input: "hi there".to_string(),
                voice: "alloy".to_string(),
                response_format: "mp3".to_string(),
            }),
        }
    );
    assert_eq!(
        directives[6],
        Directive {
            discard: vec![],
            action: Action::Respond(AudioResponse {
                audio: "//uQAA==".to_string(),
                transcript: "hello".to_string(),
            }),
        }
    );
}

#[test]
fn the_response_holds_the_transcript_not_the_reply() {
    let (_, directives) = run(machine("en"), happy_events());
    match &directives[6].action {
        Action::Respond(response) => {
            assert_eq!(response.transcript, "hello");
            assert_ne!(response.transcript, "hi there");
        }
        other => panic!("no response: {:?}", other),
    }
}

#[test]
fn the_stages_are_passed_in_order() {
    let mut pipeline = machine("pa");
    let mut stages = vec![pipeline.stage()];
    for event in happy_events() {
        let (next, _) = step(pipeline, event);
        pipeline = next;
        stages.push(pipeline.stage());
    }
    assert_eq!(
        stages,
        vec![
            Stage::Validating,
            Stage::Normalizing,
            Stage::Normalizing,
            Stage::Normalizing,
            Stage::Transcribing,
            Stage::Generating,
            Stage::Synthesizing,
            Stage::Done,
        ]
    );
}

#[test]
fn the_persona_flags_reach_the_instructions() {
    let submitted = AudioRequest {
        audio: WEBM_BASE64.to_string(),
        language: "hi".to_string(),
        genz_mode: true,
        sarcastic_mode: true,
        shenanigan_mode: false,
        seductive_mode: true,
    };
    let pipeline = Pipeline::new(submitted, Some("k".to_string()), scratch());
    let (_, directives) = run(pipeline, happy_events());
    match &directives[4].action {
        Action::Generate(chat) => {
            assert_eq!(
                chat.system,
                get_language_instructions("hi", true, true, false, true).unwrap()
            );
        }
        other => panic!("no chat request: {:?}", other),
    }
    match &directives[5].action {
        Action::Synthesize(speech) => assert_eq!(speech.voice, "nova"),
        other => panic!("no speech request: {:?}", other),
    }
}

#[test]
fn an_unsupported_language_makes_no_call() {
    let (pipeline, directives) = run(machine("xx"), happy_events());
    assert_eq!(pipeline.stage(), Stage::Error);
    assert_eq!(
        directives[0],
        Directive { discard: vec![], action: Action::Fail(AudioError::InvalidLanguage) }
    );
    for directive in &directives[1..] {
        assert_eq!(*directive, idle());
    }
    assert!(directives.iter().all(|directive| !is_call(&directive.action)));
}

#[test]
fn an_unsupported_language_is_refused_before_the_audio_is_decoded() {
    let submitted = AudioRequest { audio: "???".to_string(), ..request("zz") };
    let pipeline = Pipeline::new(submitted, None, scratch());
    let (pipeline, directive) = step(pipeline, Event::Start);
    assert_eq!(pipeline.stage(), Stage::Error);
    assert_eq!(directive.action, Action::Fail(AudioError::InvalidLanguage));
}

#[test]
fn audio_that_is_no_base64_is_a_decode_error() {
    let submitted = AudioRequest { audio: "Zg=".to_string(), ..request("en") };
    let pipeline = Pipeline::new(submitted, Some("k".to_string()), scratch());
    let (pipeline, directive) = step(pipeline, Event::Start);
    assert_eq!(pipeline.stage(), Stage::Error);
    assert_eq!(
        directive,
        Directive {
            discard: vec![],
            action: Action::Fail(AudioError::Decode("Invalid padding".to_string())),
        }
    );
}

#[test]
fn a_failed_transcoder_ends_the_request() {
    let mut events = happy_events();
    events[2] = exited(false, b"Invalid data found when processing input");
    let (pipeline, directives) = run(machine("en"), events);
    assert_eq!(pipeline.stage(), Stage::Error);
    assert_eq!(
        directives[2],
        Directive {
            discard: paths(&[INPUT, OUTPUT]),
            action: Action::Fail(AudioError::Transcode(
                "Invalid data found when processing input".to_string()
            )),
        }
    );
    for directive in &directives[3..] {
        assert_eq!(*directive, idle());
    }
    assert!(directives.iter().all(|directive| !is_provider_call(&directive.action)));
}

#[test]
fn a_transcoder_that_cannot_be_launched_ends_the_request() {
    let mut events = happy_events();
    events[2] = Event::Transcoder(TranscoderEvent::Exited(TranscoderExit::NoExit(
        "not found".to_string(),
    )));
    let (pipeline, directives) = run(machine("en"), events);
    assert_eq!(pipeline.stage(), Stage::Error);
    assert_eq!(
        directives[2].action,
        Action::Fail(AudioError::Transcode("not found".to_string()))
    );
    assert_eq!(directives[2].discard, paths(&[INPUT, OUTPUT]));
}

#[test]
fn a_failed_transcription_ends_the_request() {
    let mut events = happy_events();
    events[4] = answered(500, b"upstream exploded");
    let (pipeline, directives) = run(machine("en"), events);
    assert_eq!(pipeline.stage(), Stage::Error);
    assert_eq!(
        directives[4],
        Directive {
            discard: paths(&[OUTPUT]),
            action: Action::Fail(AudioError::Provider(
                "Whisper API failed: upstream exploded".to_string()
            )),
        }
    );
    assert!(directives
        .iter()
        .all(|d| !matches!(d.action, Action::Generate(_) | Action::Synthesize(_))));
    assert_eq!(directives[5], idle());
    assert_eq!(directives[6], idle());
}

#[test]
fn a_failed_write_is_an_io_error() {
    let (pipeline, directives) =
        run(machine("en"), vec![Event::Start, write_failed("disk full")]);
    assert_eq!(pipeline.stage(), Stage::Error);
    assert_eq!(
        directives[1],
        Directive {
            discard: paths(&[INPUT]),
            action: Action::Fail(AudioError::Io("disk full".to_string())),
        }
    );
}

#[test]
fn a_failed_read_is_an_io_error() {
    let events =
        vec![Event::Start, input_written(), exited(true, b""), read_failed("permission denied")];
    let (pipeline, directives) = run(machine("en"), events);
    assert_eq!(pipeline.stage(), Stage::Error);
    assert_eq!(
        directives[3],
        Directive {
            discard: paths(&[OUTPUT]),
            action: Action::Fail(AudioError::Io("permission denied".to_string())),
        }
    );
}

#[test]
fn without_a_credential_no_provider_is_called() {
    let pipeline = Pipeline::new(request("en"), None, scratch());
    let (pipeline, directives) = run(pipeline, happy_events());
    assert_eq!(pipeline.stage(), Stage::Error);
    assert_eq!(
        directives[3],
        Directive {
            discard: paths(&[OUTPUT]),
            action: Action::Fail(AudioError::MissingCredential(
                "Missing OPENAI_API_KEY: environment variable not found".to_string()
            )),
        }
    );
    assert!(directives.iter().all(|directive| !is_provider_call(&directive.action)));
}

#[test]
fn an_unreachable_provider_ends_the_request() {
    let mut events = happy_events();
    events[5] = Event::ProviderReplied(ProviderReply::Unreachable("timed out".to_string()));
    let (pipeline, directives) = run(machine("en"), events);
    assert_eq!(pipeline.stage(), Stage::Error);
    assert_eq!(
        directives[5],
        Directive {
            discard: vec![],
            action: Action::Fail(AudioError::Transport("timed out".to_string())),
        }
    );
    assert_eq!(directives[6], idle());
}

#[test]
fn a_chat_answer_without_text_ends_the_request() {
    let mut events = happy_events();
    events[5] = answered(200, br#"{"choices": []}"#);
    let (_, directives) = run(machine("en"), events);
    assert_eq!(
        directives[5].action,
        Action::Fail(AudioError::MalformedResponse("No response text in Chat API".to_string()))
    );
}

#[test]
fn a_failed_synthesis_ends_the_request() {
    let mut events = happy_events();
    events[6] = answered(400, b"bad voice");
    let (pipeline, directives) = run(machine("en"), events);
    assert_eq!(pipeline.stage(), Stage::Error);
    assert_eq!(
        directives[6].action,
        Action::Fail(AudioError::Provider("TTS API failed: bad voice".to_string()))
    );
}

#[test]
fn events_out_of_turn_change_nothing() {
    let (pipeline, directive) = step(machine("en"), input_written());
    assert_eq!(pipeline.stage(), Stage::Validating);
    assert_eq!(directive, idle());
    let (pipeline, directive) = step(pipeline, answered(200, b"{}"));
    assert_eq!(pipeline.stage(), Stage::Validating);
    assert_eq!(directive, idle());
    let (pipeline, _) = step(pipeline, Event::Start);
    assert_eq!(pipeline.stage(), Stage::Normalizing);
    let (pipeline, directive) = step(pipeline, Event::Start);
    assert_eq!(pipeline.stage(), Stage::Normalizing);
    assert_eq!(directive, idle());
    let (pipeline, directive) = step(pipeline, output_read(&[1]));
    assert_eq!(pipeline.stage(), Stage::Normalizing);
    assert_eq!(directive, idle());
    let (pipeline, directive) =
        step(pipeline, Event::Transcoder(TranscoderEvent::Submit(vec![1, 2, 3])));
    assert_eq!(pipeline.stage(), Stage::Normalizing);
    assert_eq!(directive, idle());
    let (pipeline, directive) = step(pipeline, input_written());
    assert_eq!(pipeline.stage(), Stage::Normalizing);
    assert!(matches!(directive.action, Action::Transcoder(TranscoderTask::Run { .. })));
}

#[test]
fn a_finished_machine_stays_finished() {
    let (mut pipeline, _) = run(machine("en"), happy_events());
    for event in happy_events() {
        let (next, directive) = step(pipeline, event);
        pipeline = next;
        assert_eq!(pipeline.stage(), Stage::Done);
        assert_eq!(directive, idle());
    }
}

#[test]
fn every_scratch_file_is_discarded_by_the_end() {
    let mut failing_write = happy_events();
    failing_write[1] = write_failed("x");
    let mut failing_exit = happy_events();
    failing_exit[2] = exited(false, b"x");
    let mut failing_read = happy_events();
    failing_read[3] = read_failed("x");
    let mut failing_transcription = happy_events();
    failing_transcription[4] = answered(500, b"x");
    for events in
        [happy_events(), failing_write, failing_exit, failing_read, failing_transcription]
    {
        let (pipeline, directives) = run(machine("en"), events);
        assert!(pipeline.is_finished());
        let discarded: Vec<&String> = directives.iter().flat_map(|d| d.discard.iter()).collect();
        assert!(discarded.iter().any(|path| *path == INPUT));
        let transcoded = directives
            .iter()
            .any(|d| matches!(d.action, Action::Transcoder(TranscoderTask::Run { .. })));
        assert_eq!(transcoded, discarded.iter().any(|path| *path == OUTPUT));
    }
}

#[test]
fn synthesized_audio_must_fit_to_be_admitted() {
    let (pipeline, _) = run(machine("en"), happy_events().into_iter().take(6).collect());
    assert_eq!(pipeline.stage(), Stage::Synthesizing);
    assert!(pipeline.admits(&answered(200, MP3)));
    assert!(pipeline.admits(&Event::Start));
}

#[test]
fn validating_reads_the_language() {
    assert_eq!(validate(&request("en")), Ok(Language::English));
    assert_eq!(validate(&request("hi")), Ok(Language::Hindi));
    assert_eq!(validate(&request("pa")), Ok(Language::Punjabi));
    assert_eq!(validate(&request("xx")), Err(AudioError::InvalidLanguage));
    assert_eq!(validate(&request("")), Err(AudioError::InvalidLanguage));
}

#[test]
fn assembling_pairs_the_encoded_audio_with_the_transcript() {
    assert_eq!(
        assemble("hello".to_string(), MP3),
        AudioResponse { audio: "//uQAA==".to_string(), transcript: "hello".to_string() }
    );
    assert_eq!(
        assemble(String::new(), b""),
        AudioResponse { audio: String::new(), transcript: String::new() }
    );
}

#[test]
fn synthesized_audio_that_cannot_be_read_ends_the_request() {
    let mut events = happy_events();
    events[6] = Event::ProviderReplied(ProviderReply::Unread {
        status: 200,
        reason: "connection closed".to_string(),
    });
    let (pipeline, directives) = run(machine("en"), events);
    assert_eq!(pipeline.stage(), Stage::Error);
    assert_eq!(
        directives[6].action,
        Action::Fail(AudioError::Transport("connection closed".to_string()))
    );
}
