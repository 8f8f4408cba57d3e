use base64::engine::general_purpose::STANDARD;
use base64::Engine;
use gemini_live_mock_server::audio::Track;
use gemini_live_mock_server::config::ServerConfig;
use gemini_live_mock_server::energy::Energy;
use gemini_live_mock_server::mock_response::Resampled;
use gemini_live_mock_server::pcm::bytes_from_samples;
use gemini_live_mock_server::protocol::{
    ActivityEnd, ActivityStart, ClientContent, ClientMessage, FunctionResponse, GenerationConfig,
    InlineData, RealtimeInput, ServerMessage, Setup, ToolResponse, VoiceActivityType,
};
use gemini_live_mock_server::session::{new_session_id, Action, Next, Session, SessionState, Step};
use gemini_live_mock_server::session_model::Signals;
use tokio_util::sync::CancellationToken;

const LOUD: f32 = 0.5;
const QUIET: f32 = 0.0;

fn nothing() -> ClientMessage {
    ClientMessage { setup: None, client_content: None, realtime_input: None, tool_response: None }
}

fn setup(modalities: Option<Vec<&str>>) -> ClientMessage {
    let generation_config = Some(GenerationConfig {
        response_modalities: modalities.map(|m| m.iter().map(|s| s.to_string()).collect()),
    });
    ClientMessage {
        setup: Some(Setup { model: "gemini-live-2.5-flash-preview".to_string(), generation_config }),
        ..nothing()
    }
}

fn content(turn_complete: bool) -> ClientMessage {
    ClientMessage {
        client_content: Some(ClientContent { turns: Vec::new(), turn_complete }),
        ..nothing()
    }
}

fn silent_input() -> RealtimeInput {
    RealtimeInput { audio: None, activity_start: None, activity_end: None, audio_stream_end: None }
}

fn realtime(input: RealtimeInput) -> ClientMessage {
    ClientMessage { realtime_input: Some(input), ..nothing() }
}

fn blob(data: String) -> Option<InlineData> {
    Some(InlineData { mime_type: "audio/pcm;rate=16000".to_string(), data })
}

fn audio_data(samples: &[i16]) -> Option<InlineData> {
    blob(STANDARD.encode(bytes_from_samples(samples)))
}

fn audio(samples: &[i16]) -> ClientMessage {
    realtime(RealtimeInput { audio: audio_data(samples), ..silent_input() })
}

fn activity_start() -> ClientMessage {
    realtime(RealtimeInput { activity_start: Some(ActivityStart {}), ..silent_input() })
}

fn activity_end() -> ClientMessage {
    realtime(RealtimeInput { activity_end: Some(ActivityEnd {}), ..silent_input() })
}

fn stream_end() -> ClientMessage {
    realtime(RealtimeInput { audio_stream_end: Some(true), ..silent_input() })
}

fn tool_response() -> ClientMessage {
    let response = FunctionResponse { id: "id".to_string(), name: "get_data".to_string() };
    ClientMessage {
        tool_response: Some(ToolResponse { function_responses: vec![response] }),
        ..nothing()
    }
}

fn config() -> ServerConfig {
    ServerConfig { vad_silence_frames: 2, ..ServerConfig::default() }
}

fn session_with(config: ServerConfig) -> Session {
    Session::new("session-1".to_string(), config, CancellationToken::new())
}

/// A session that is ready, with audio responses or without.
fn ready(config: ServerConfig, with_audio: bool) -> Session {
    let mut session = session_with(config);
    let modality = if with_audio { "AUDIO" } else { "TEXT" };
    session.handle_message(setup(Some(vec![modality])));
    session
}

fn energy(value: f32) -> Energy {
    Energy::from_bits(value.to_bits())
}

/// Half the audio again: each chunk gives three samples.
fn resample(chunks: &[Vec<i16>]) -> Resampled {
    Ok(chunks.iter().map(|c| Some(vec![c[0], c[1], -1])).collect())
}

/// The actions in a short notation.
fn brief(actions: &[Action]) -> Vec<String> {
    actions
        .iter()
        .map(|a| match a {
            Action::LogInput(s) => format!("log input {s:?}"),
            Action::LogOutput(s) => format!("log output {s:?}"),
            Action::Send(ServerMessage::SetupComplete(m)) => {
                format!("setup complete {}", m.setup_complete.session_id)
            }
            Action::Send(ServerMessage::UsageMetadata(m)) => {
                format!("usage {}", m.usage_metadata.total_token_count)
            }
            Action::Send(ServerMessage::VoiceActivity(m)) => match m.voice_activity.activity_type {
                VoiceActivityType::VoiceActivityStart => "voice start".to_string(),
                VoiceActivityType::VoiceActivityEnd => "voice end".to_string(),
            },
            Action::Send(ServerMessage::ToolCall(m)) => {
                assert_eq!(m.tool_call.function_calls.len(), 1);
                format!("tool call {}", m.tool_call.function_calls[0].id)
            }
            Action::Send(ServerMessage::ServerContent(m)) => {
                let c = &m.server_content;
                match (&c.model_turn, c.turn_complete, c.interrupted) {
                    (None, Some(true), None) => "turn complete".to_string(),
                    (None, None, Some(true)) => "interrupted".to_string(),
                    (Some(turn), None, None) => match &turn.parts[0].inline_data {
                        Some(d) => format!("audio {}", d.data),
                        None => format!("text {}", turn.parts[0].text.as_ref().unwrap()),
                    },
                    other => panic!("unexpected content {other:?}"),
                }
            }
        })
        .collect()
}

/// Tells the session what it asks for until it is done, with every frame of one energy.
fn finish(session: &mut Session, first: Step, level: f32) -> Vec<String> {
    let mut said = brief(&first.actions);
    let mut next = first.next;
    loop {
        let step = match next {
            Next::Done => return said,
            Next::MeasureEnergy(_) => session.handle_energy(energy(level)),
            Next::Delay(_) => session.generate_response(),
            Next::Resample(chunks) => session.send_response_content(&resample(&chunks)),
            Next::Continue => session.handle_kept_signals(),
        };
        said.extend(brief(&step.actions));
        next = step.next;
    }
}

fn tell(session: &mut Session, message: ClientMessage, level: f32) -> Vec<String> {
    let step = session.handle_message(message);
    finish(session, step, level)
}

#[test]
fn setup_is_confirmed_once() {
    let mut session = session_with(config());
    assert_eq!(session.state(), SessionState::AwaitingSetup);
    assert_eq!(tell(&mut session, setup(None), QUIET), vec!["setup complete session-1"]);
    assert_eq!(session.state(), SessionState::Ready);
    assert!(tell(&mut session, setup(None), QUIET).is_empty());
    assert_eq!(session.state(), SessionState::Ready);
}

#[test]
fn nothing_happens_before_setup() {
    let mut session = session_with(config());
    let messages = [content(true), audio(&[1, 2]), activity_start(), stream_end(), tool_response(), nothing()];
    for message in messages {
        assert!(tell(&mut session, message, LOUD).is_empty());
        assert_eq!(session.state(), SessionState::AwaitingSetup);
    }
    assert_eq!(session.turn_count(), 0);
}

#[test]
fn setup_comes_before_the_other_parts_of_a_message() {
    let mut session = session_with(config());
    let both = ClientMessage { client_content: content(true).client_content, ..setup(None) };
    assert_eq!(tell(&mut session, both, QUIET), vec!["setup complete session-1"]);
    assert_eq!(session.turn_count(), 0);
}

#[test]
fn a_complete_turn_is_answered() {
    let mut session = ready(config(), false);
    for turn in 1..=3 {
        let expected =
            vec![format!("text Mock response #{turn}"), "turn complete".to_string(), "usage 15".to_string()];
        assert_eq!(tell(&mut session, content(true), QUIET), expected);
        assert_eq!(session.state(), SessionState::Ready);
        assert_eq!(session.turn_count(), turn);
    }
}

#[test]
fn the_response_waits_for_the_delay() {
    let mut session = ready(ServerConfig { response_delay: 500, ..config() }, false);
    let step = session.handle_message(content(true));
    assert!(step.actions.is_empty());
    assert!(matches!(step.next, Next::Delay(500)));
    assert_eq!(session.state(), SessionState::Responding);
}

#[test]
fn unfinished_content_is_ignored() {
    let mut session = ready(config(), false);
    assert!(tell(&mut session, content(false), QUIET).is_empty());
    assert_eq!(session.state(), SessionState::Ready);
    tell(&mut session, activity_start(), QUIET);
    assert!(tell(&mut session, content(true), QUIET).is_empty());
    assert_eq!(session.state(), SessionState::ReceivingAudio);
}

#[test]
fn a_cancelled_session_says_nothing() {
    let token = CancellationToken::new();
    let mut session = Session::new("s".to_string(), config(), token.clone());
    session.handle_message(setup(None));
    assert!(!session.is_cancelled());
    let step = session.handle_message(content(true));
    session.cancel();
    assert!(session.is_cancelled());
    assert!(token.is_cancelled());
    assert!(session.cancellation_token() == token);
    assert!(finish(&mut session, step, QUIET).is_empty());
    assert_eq!(session.state(), SessionState::Responding);
    assert_eq!(session.turn_count(), 1);
}

#[test]
fn cancellation_is_an_argument_of_the_response() {
    let mut session = ready(config(), false);
    session.handle_message(content(true));
    let step = session.generate_response_with(true, String::new());
    assert!(step.actions.is_empty());
    assert!(matches!(step.next, Next::Done));
}

#[test]
fn a_spoken_turn_is_echoed() {
    let mut session = ready(config(), true);
    // Before speech
    assert!(tell(&mut session, audio(&[7, 7]), QUIET).is_empty());
    assert_eq!(session.state(), SessionState::ReceivingAudio);
    assert_eq!(tell(&mut session, audio(&[1, 2]), LOUD), vec!["voice start"]);
    assert!(tell(&mut session, audio(&[3]), LOUD).is_empty());
    assert!(tell(&mut session, audio(&[4]), QUIET).is_empty());

    let step = session.handle_message(audio(&[5, 6]));
    assert!(matches!(&step.next, Next::MeasureEnergy(s) if s == &vec![5, 6]));
    let step = session.handle_energy(energy(QUIET));
    assert_eq!(brief(&step.actions), vec!["voice end"]);
    assert!(matches!(step.next, Next::Delay(200)));
    let step = session.generate_response();
    assert!(step.actions.is_empty());
    let chunks = match step.next {
        Next::Resample(chunks) => chunks,
        other => panic!("{other:?}"),
    };
    assert_eq!(chunks.len(), 1);
    assert_eq!(chunks[0][..7], [1, 2, 3, 4, 5, 6, 0]);

    let step = session.send_response_content(&Ok(vec![Some(vec![1, -1])]));
    assert_eq!(
        brief(&step.actions),
        vec!["audio AQD//w==", "text Mock response #1", "turn complete", "usage 15"]
    );
    assert_eq!(session.state(), SessionState::Ready);
}

#[test]
fn without_audio_modality_only_text_is_said() {
    let mut session = ready(config(), false);
    tell(&mut session, audio(&[1]), LOUD);
    tell(&mut session, audio(&[2]), QUIET);
    assert_eq!(
        tell(&mut session, audio(&[3]), QUIET),
        vec!["voice end", "text Mock response #1", "turn complete", "usage 15"]
    );
}

#[test]
fn modalities_are_read_in_any_case() {
    for (modalities, expected) in [
        (Some(vec!["TEXT", "aUdIo"]), true),
        (Some(vec!["audio"]), true),
        (Some(vec!["audios", "text"]), false),
        (Some(vec![]), false),
        (None, false),
    ] {
        let mut session = session_with(config());
        session.handle_message(setup(modalities));
        tell(&mut session, activity_start(), QUIET);
        tell(&mut session, audio(&[1, 2]), QUIET);
        session.handle_message(activity_end());
        let step = session.generate_response();
        assert_eq!(matches!(step.next, Next::Resample(_)), expected);
    }
}

#[test]
fn a_failed_resampler_leaves_the_text() {
    let mut session = ready(config(), true);
    tell(&mut session, audio(&[1]), QUIET);
    let step = session.handle_message(stream_end());
    assert!(matches!(step.next, Next::Delay(_)));
    let step = session.generate_response();
    assert!(matches!(step.next, Next::Resample(_)));
    let step = session.send_response_content(&Err("no".to_string()));
    assert_eq!(brief(&step.actions), vec!["text Mock response #1", "turn complete", "usage 15"]);
    assert_eq!(session.state(), SessionState::Ready);
}

#[test]
fn a_tool_call_comes_every_nth_turn() {
    let mut session = ready(ServerConfig { tool_call_interval: Some(2), ..config() }, false);
    assert_eq!(tell(&mut session, content(true), QUIET)[0], "text Mock response #1");

    let said = tell(&mut session, content(true), QUIET);
    assert_eq!(said.len(), 1);
    let id = said[0].strip_prefix("tool call call_").unwrap();
    assert_uuid(id);
    assert_eq!(session.state(), SessionState::Responding);

    assert_eq!(
        tell(&mut session, tool_response(), QUIET),
        vec!["text Mock response #2", "turn complete", "usage 15"]
    );
    assert_eq!(session.state(), SessionState::Ready);
    // A second response to the same call is ignored
    assert!(tell(&mut session, tool_response(), QUIET).is_empty());
    assert_eq!(tell(&mut session, content(true), QUIET)[0], "text Mock response #3");
    assert!(tell(&mut session, content(true), QUIET)[0].starts_with("tool call call_"));
}

#[test]
fn a_tool_call_has_the_given_identifier() {
    let mut session = ready(ServerConfig { tool_call_interval: Some(1), ..config() }, false);
    session.handle_message(content(true));
    let step = session.generate_response_with(false, "abc".to_string());
    assert_eq!(brief(&step.actions), vec!["tool call call_abc"]);
}

#[test]
fn a_late_tool_response_is_answered_in_the_current_turn() {
    let mut session = ready(ServerConfig { tool_call_interval: Some(2), ..config() }, false);
    let mut said = tell(&mut session, content(true), QUIET);
    said.extend(tell(&mut session, content(true), QUIET));
    said.extend(tell(&mut session, activity_start(), QUIET));
    said.extend(tell(&mut session, activity_end(), QUIET));
    let late = tell(&mut session, tool_response(), QUIET);
    assert_eq!(late, vec!["text Mock response #3", "turn complete", "usage 15"]);
    said.extend(late);
    // As many answers as turns
    assert_eq!(said.iter().filter(|s| *s == "turn complete").count(), 3);
    assert_eq!(session.turn_count(), 3);
}

#[test]
fn an_interval_of_zero_turns_is_no_interval() {
    let mut session = ready(ServerConfig { tool_call_interval: Some(0), ..config() }, false);
    assert_eq!(tell(&mut session, content(true), QUIET)[0], "text Mock response #1");
}

#[test]
fn unasked_tool_responses_are_ignored() {
    let mut session = ready(config(), false);
    assert!(tell(&mut session, tool_response(), QUIET).is_empty());
    assert_eq!(session.state(), SessionState::Ready);
}

#[test]
fn speech_interrupts_a_response() {
    let mut session = ready(ServerConfig { tool_call_interval: Some(1), ..config() }, true);
    tell(&mut session, content(true), QUIET);
    assert_eq!(session.state(), SessionState::Responding);
    // Quiet audio does not interrupt
    assert!(tell(&mut session, audio(&[9]), QUIET).is_empty());
    assert_eq!(session.state(), SessionState::Responding);
    assert_eq!(tell(&mut session, audio(&[1]), LOUD), vec!["interrupted", "voice start"]);
    assert_eq!(session.state(), SessionState::ReceivingAudio);
    // The tool response is not awaited any more
    assert!(tell(&mut session, tool_response(), QUIET).is_empty());
}

#[test]
fn signals_mark_a_turn() {
    let mut session = ready(config(), false);
    assert!(tell(&mut session, activity_end(), QUIET).is_empty());
    assert_eq!(session.state(), SessionState::Ready);
    assert!(tell(&mut session, activity_start(), QUIET).is_empty());
    assert_eq!(session.state(), SessionState::ReceivingAudio);
    assert_eq!(
        tell(&mut session, activity_end(), QUIET),
        vec!["text Mock response #1", "turn complete", "usage 15"]
    );
}

#[test]
fn the_end_of_the_stream_needs_audio() {
    let mut session = ready(config(), false);
    tell(&mut session, activity_start(), QUIET);
    assert!(tell(&mut session, stream_end(), QUIET).is_empty());
    assert_eq!(session.state(), SessionState::ReceivingAudio);
    let not_the_end = realtime(RealtimeInput { audio_stream_end: Some(false), ..silent_input() });
    tell(&mut session, audio(&[1]), QUIET);
    assert!(tell(&mut session, not_the_end, QUIET).is_empty());
    assert_eq!(tell(&mut session, stream_end(), QUIET).len(), 3);
}

#[test]
fn one_input_may_bring_two_turns() {
    let mut session = ready(ServerConfig { vad_silence_frames: 1, ..config() }, false);
    tell(&mut session, audio(&[1]), LOUD);
    let input = RealtimeInput {
        audio: audio_data(&[2]),
        activity_start: Some(ActivityStart {}),
        activity_end: Some(ActivityEnd {}),
        audio_stream_end: Some(true),
    };
    assert_eq!(
        tell(&mut session, realtime(input), QUIET),
        vec![
            "voice end",
            "text Mock response #1",
            "turn complete",
            "usage 15",
            "text Mock response #2",
            "turn complete",
            "usage 15",
        ]
    );
    assert_eq!(session.turn_count(), 2);
}

#[test]
fn unreadable_audio_is_ignored() {
    let mut session = ready(config(), true);
    for data in ["", "!", "AQ", "AQ==", "AAA"] {
        let input = RealtimeInput { audio: blob(data.to_string()), ..silent_input() };
        assert!(tell(&mut session, realtime(input), LOUD).is_empty());
        assert_eq!(session.state(), SessionState::Ready);
    }
    // Two bytes and one that is dropped
    let input = RealtimeInput { audio: blob("AQID".to_string()), ..silent_input() };
    let step = session.handle_message(realtime(input));
    assert!(matches!(&step.next, Next::MeasureEnergy(s) if s == &vec![0x0201]));
}

#[test]
fn audio_is_logged_where_there_are_logs() {
    let logging = ServerConfig { audio_output_dir: Some("logs".to_string()), ..config() };
    let mut session = ready(logging, true);
    assert_eq!(tell(&mut session, audio(&[1, 2]), QUIET), vec!["log input [1, 2]"]);
    let file = session.log_file(Track::Input).unwrap();
    assert_eq!((file.directory.as_str(), file.name.as_str()), ("logs", "session-1_input.wav"));
    session.log_created(Track::Input);
    assert!(session.log_file(Track::Input).is_none());
    let said = tell(&mut session, stream_end(), QUIET);
    assert_eq!(said[0], "log output [1, 2, -1]");
    assert!(said[1].starts_with("audio "));
    assert_eq!(session.log_file(Track::Output).unwrap().name, "session-1_output.wav");
    session.log_created(Track::Output);
    assert_eq!(session.finalize(), vec![Track::Input, Track::Output]);
}

#[test]
fn without_logs_nothing_is_logged() {
    let mut session = ready(config(), true);
    assert!(tell(&mut session, audio(&[1, 2]), QUIET).is_empty());
    assert!(session.log_file(Track::Input).is_none());
    session.log_created(Track::Input);
    assert_eq!(session.finalize(), vec![]);
}

const NO_SIGNALS: Signals =
    Signals { activity_start: false, activity_end: false, audio_stream_end: false };

#[test]
fn decoded_samples_are_logged_buffered_and_measured() {
    let logged = ServerConfig { audio_output_dir: Some("logs".to_string()), ..config() };
    let mut session = ready(logged, true);
    let step = session.handle_audio_samples(vec![5, -6], NO_SIGNALS);
    assert_eq!(brief(&step.actions), vec!["log input [5, -6]"]);
    assert!(matches!(step.next, Next::MeasureEnergy(s) if s == vec![5, -6]));
    assert_eq!(session.state(), SessionState::ReceivingAudio);
    session.handle_energy(energy(QUIET));

    // Without samples, only the signals count
    let ending = Signals { audio_stream_end: true, ..NO_SIGNALS };
    let step = session.handle_audio_samples(vec![], ending);
    assert!(step.actions.is_empty());
    assert!(matches!(step.next, Next::Delay(200)));
    assert_eq!(session.turn_count(), 1);
}

#[test]
fn a_frame_in_base64_is_handled_as_its_samples() {
    let mut session = ready(config(), true);
    let data = audio_data(&[1, -2, 300]).unwrap().data;
    let step = session.handle_audio_input(&data, NO_SIGNALS);
    assert!(matches!(step.next, Next::MeasureEnergy(s) if s == vec![1, -2, 300]));
    session.handle_energy(energy(QUIET));
    let step = session.handle_audio_input("not base64!", NO_SIGNALS);
    assert!(matches!(step.next, Next::Done));
    assert_eq!(session.state(), SessionState::ReceivingAudio);
}

#[test]
fn each_part_has_a_handler_of_its_own() {
    let mut session = session_with(config());
    let step = session.handle_client_content(content(true).client_content.unwrap());
    assert!(step.actions.is_empty() && matches!(step.next, Next::Done));
    let step = session.handle_realtime_input(activity_start().realtime_input.unwrap());
    assert!(step.actions.is_empty() && matches!(step.next, Next::Done));
    assert_eq!(session.state(), SessionState::AwaitingSetup);

    let step = session.handle_setup(setup(None).setup.unwrap());
    assert_eq!(brief(&step.actions), vec!["setup complete session-1"]);
    let step = session.handle_setup(setup(None).setup.unwrap());
    assert!(step.actions.is_empty() && matches!(step.next, Next::Done));
    let step = session.handle_tool_response(tool_response().tool_response.unwrap());
    assert!(step.actions.is_empty() && matches!(step.next, Next::Done));
    assert_eq!(session.state(), SessionState::Ready);

    session.handle_realtime_input(activity_start().realtime_input.unwrap());
    assert_eq!(session.state(), SessionState::ReceivingAudio);
    let step = session.handle_realtime_input(activity_end().realtime_input.unwrap());
    assert!(matches!(step.next, Next::Delay(200)));
}

#[test]
fn only_the_first_part_of_a_message_counts() {
    // Unfinished content hides the activity start and the tool response behind it
    let mut session = ready(config(), false);
    let message = ClientMessage {
        client_content: content(false).client_content,
        realtime_input: activity_start().realtime_input,
        tool_response: tool_response().tool_response,
        ..nothing()
    };
    assert!(tell(&mut session, message, QUIET).is_empty());
    assert_eq!(session.state(), SessionState::Ready);

    // The activity start hides an awaited tool response
    let mut session = ready(ServerConfig { tool_call_interval: Some(1), ..config() }, false);
    tell(&mut session, content(true), QUIET);
    let message = ClientMessage {
        realtime_input: activity_start().realtime_input,
        tool_response: tool_response().tool_response,
        ..nothing()
    };
    assert!(tell(&mut session, message, QUIET).is_empty());
    assert_eq!(session.state(), SessionState::ReceivingAudio);

    // A message without any part has no effect
    assert!(tell(&mut session, nothing(), QUIET).is_empty());
    assert_eq!(session.state(), SessionState::ReceivingAudio);
}

/// A session whose delay is running, with the given signals kept for after the turn.
fn spoken_with(config: ServerConfig, with_audio: bool, signals: Signals) -> Session {
    let mut session = ready(config, with_audio);
    tell(&mut session, audio(&[1, 2]), LOUD);
    tell(&mut session, audio(&[3, 4]), QUIET);
    session.handle_audio_samples(vec![5, 6], signals);
    let step = session.handle_energy(energy(QUIET));
    assert_eq!(brief(&step.actions), vec!["voice end"]);
    assert!(matches!(step.next, Next::Delay(200)));
    session
}

/// The first turn is over, and then the kept signals bring about the given state and turn count.
fn assert_turn_is_over(
    session: &mut Session,
    next: Next,
    signals: Signals,
    state: SessionState,
    turns: u32,
) {
    assert_eq!(session.state(), SessionState::Ready);
    assert_eq!(session.turn_count(), 1);
    if signals.activity_start || signals.activity_end || signals.audio_stream_end {
        assert!(matches!(next, Next::Continue));
        assert_eq!(session.kept_signals_start_turn(), turns == 2);
        let step = session.handle_kept_signals();
        assert!(step.actions.is_empty());
        assert_eq!(matches!(step.next, Next::Done), turns == 1);
        assert_eq!(matches!(step.next, Next::Delay(200)), turns == 2);
    } else {
        assert!(matches!(next, Next::Done));
    }
    assert_eq!(session.state(), state);
    assert_eq!(session.turn_count(), turns);
}

#[test]
fn kept_signals_come_after_the_turn() {
    let starting = Signals { activity_start: true, ..NO_SIGNALS };
    let both = Signals { activity_end: true, ..starting };
    let ending = Signals { audio_stream_end: true, ..NO_SIGNALS };
    let cases = [
        (NO_SIGNALS, SessionState::Ready, 1),
        (ending, SessionState::Ready, 1),
        (starting, SessionState::ReceivingAudio, 1),
        (both, SessionState::Responding, 2),
    ];
    for (signals, state, turns) in cases {
        // Text alone
        let mut session = spoken_with(config(), false, signals);
        let step = session.generate_response_with(false, String::new());
        let expected = vec!["text Mock response #1", "turn complete", "usage 15"];
        assert_eq!(brief(&step.actions), expected);
        assert_turn_is_over(&mut session, step.next, signals, state, turns);

        // With audio, all of it after the resampler
        let mut session = spoken_with(config(), true, signals);
        let step = session.generate_response_with(false, String::new());
        assert!(step.actions.is_empty());
        assert!(matches!(step.next, Next::Resample(_)));
        let step = session.send_response_content(&Err("no resampler".to_string()));
        assert_eq!(brief(&step.actions), expected);
        assert_turn_is_over(&mut session, step.next, signals, state, turns);
    }
}

#[test]
fn a_tool_call_is_sent_whatever_signals_are_kept() {
    let calls = ServerConfig { tool_call_interval: Some(1), ..config() };
    let starting = Signals { activity_start: true, ..NO_SIGNALS };
    for (signals, state) in
        [(NO_SIGNALS, SessionState::Responding), (starting, SessionState::ReceivingAudio)]
    {
        let mut session = spoken_with(calls.clone(), false, signals);
        let step = session.generate_response_with(false, "u".to_string());
        assert_eq!(brief(&step.actions), vec!["tool call call_u"]);
        assert_eq!(session.state(), SessionState::Responding);
        finish(&mut session, step, QUIET);
        assert_eq!(session.state(), state);
        // Either way the response to it is awaited, once
        let expected = vec!["text Mock response #1", "turn complete", "usage 15"];
        assert_eq!(tell(&mut session, tool_response(), QUIET), expected);
        assert!(tell(&mut session, tool_response(), QUIET).is_empty());
        assert_eq!(session.state(), SessionState::Ready);
    }
}

#[test]
fn a_session_that_keeps_responding_awaits_a_tool_response() {
    let mut session = ready(ServerConfig { tool_call_interval: Some(2), ..config() }, false);
    for turn in 1..=6 {
        tell(&mut session, content(true), QUIET);
        let awaits = session.state() == SessionState::Responding;
        assert_eq!(awaits, turn % 2 == 0);
        assert_eq!(!tell(&mut session, tool_response(), QUIET).is_empty(), awaits);
        assert_eq!(session.turn_count(), turn);
    }
}

#[test]
fn it_can_be_known_whether_a_turn_begins() {
    let mut session = session_with(config());
    assert!(!session.message_starts_turn(&content(true)));
    session.handle_message(setup(None));
    assert!(session.message_starts_turn(&content(true)));
    assert!(!session.message_starts_turn(&content(false)));
    assert!(!session.message_starts_turn(&setup(None)));
    assert!(!session.message_starts_turn(&activity_start()));
    // Signals that end what has not begun
    assert!(!session.message_starts_turn(&activity_end()));
    assert!(!session.message_starts_turn(&stream_end()));
    assert!(!session.message_starts_turn(&tool_response()));
    assert!(!session.message_starts_turn(&nothing()));

    // Speech starts, goes on, pauses and ends: only the end begins a turn
    for (level, begins) in [(LOUD, false), (LOUD, false), (QUIET, false), (QUIET, true)] {
        session.handle_audio_samples(vec![1], NO_SIGNALS);
        let before = session.turn_count();
        assert_eq!(session.energy_starts_turn(energy(level)), begins);
        session.handle_energy(energy(level));
        assert_eq!(session.turn_count() > before, begins);
    }
    session.generate_response();

    // With the end of the stream, any frame begins one
    let ending = Signals { audio_stream_end: true, ..NO_SIGNALS };
    session.handle_audio_samples(vec![1], ending);
    assert!(session.energy_starts_turn(energy(QUIET)));

    // After a tool call the audio is left, and the end of the stream counts
    let calls = ServerConfig { tool_call_interval: Some(1), ..config() };
    let both = Signals { activity_start: true, ..ending };
    let mut session = spoken_with(calls, false, both);
    session.generate_response_with(false, "u".to_string());
    assert!(session.kept_signals_start_turn());
    session.handle_kept_signals();
    assert_eq!(session.turn_count(), 2);
}

/// The samples that are resampled for the response, once the delay is over.
fn echoed(session: &mut Session, n: usize) -> Vec<i16> {
    match session.generate_response_with(false, String::new()).next {
        Next::Resample(chunks) => {
            assert!(chunks[0][n..].iter().all(|&s| s == 0));
            chunks[0][..n].to_vec()
        }
        other => panic!("{other:?}"),
    }
}

#[test]
fn speech_that_interrupts_is_echoed_alone() {
    let calls = ServerConfig { tool_call_interval: Some(1), ..config() };
    let mut session = ready(calls, true);
    tell(&mut session, content(true), QUIET);
    assert_eq!(session.state(), SessionState::Responding);
    assert!(tell(&mut session, audio(&[8, 9]), QUIET).is_empty());
    assert_eq!(tell(&mut session, audio(&[1]), LOUD), vec!["interrupted", "voice start"]);
    assert!(tell(&mut session, audio(&[2]), QUIET).is_empty());
    session.handle_message(audio(&[3]));
    let step = session.handle_energy(energy(QUIET));
    assert_eq!(brief(&step.actions), vec!["voice end"]);
    // This turn is one with a tool call, too, and its response goes on with the audio
    let step = session.generate_response_with(false, "u".to_string());
    assert_eq!(brief(&step.actions), vec!["tool call call_u"]);
    match session.handle_message(tool_response()).next {
        Next::Resample(chunks) => assert_eq!(chunks[0][..4], [1, 2, 3, 0]),
        other => panic!("{other:?}"),
    }
}

#[test]
fn a_marked_turn_is_echoed() {
    // What was heard before the activity start is kept, and so is silence
    for closing in [activity_end(), stream_end()] {
        let mut session = ready(config(), true);
        tell(&mut session, audio(&[7]), QUIET);
        tell(&mut session, activity_start(), QUIET);
        tell(&mut session, audio(&[1, 2]), QUIET);
        tell(&mut session, audio(&[3]), QUIET);
        let step = session.handle_message(closing);
        assert!(step.actions.is_empty());
        assert!(matches!(step.next, Next::Delay(200)));
        assert_eq!(echoed(&mut session, 4), vec![7, 1, 2, 3]);
    }
}

#[test]
fn speech_that_a_signal_ends_is_echoed_from_its_start() {
    let mut session = ready(config(), true);
    tell(&mut session, activity_start(), QUIET);
    tell(&mut session, audio(&[7]), QUIET);
    assert_eq!(tell(&mut session, audio(&[1, 2]), LOUD), vec!["voice start"]);
    assert!(tell(&mut session, audio(&[3]), LOUD).is_empty());
    assert!(matches!(session.handle_message(activity_end()).next, Next::Delay(200)));
    assert_eq!(echoed(&mut session, 3), vec![1, 2, 3]);
}

#[test]
fn a_frame_puts_off_the_turn_that_its_signals_begin() {
    let mut session = ready(config(), true);
    tell(&mut session, activity_start(), QUIET);
    let ending = |data| RealtimeInput {
        audio: data,
        activity_end: Some(ActivityEnd {}),
        ..silent_input()
    };
    assert!(session.message_starts_turn(&activity_end()));
    assert!(session.message_starts_turn(&realtime(ending(None))));
    assert!(session.message_starts_turn(&realtime(ending(blob("not base64".to_string())))));
    assert!(!session.message_starts_turn(&realtime(ending(audio_data(&[1])))));
}

#[test]
fn a_message_is_handled_where_turns_can_be_counted() {
    let mut session = session_with(config());
    let step = session.try_handle_message(setup(None)).unwrap();
    assert_eq!(brief(&step.actions), vec!["setup complete session-1"]);
    let step = session.try_handle_message(content(true)).unwrap();
    assert!(matches!(step.next, Next::Delay(200)));
    assert_eq!(session.turn_count(), 1);
}

fn assert_uuid(id: &str) {
    assert_eq!(id.len(), 36);
    for (i, c) in id.chars().enumerate() {
        match i {
            8 | 13 | 18 | 23 => assert_eq!(c, '-'),
            14 => assert_eq!(c, '4'),
            19 => assert!("89ab".contains(c)),
            _ => assert!(c.is_ascii_digit() || ('a'..='f').contains(&c)),
        }
    }
}

#[test]
fn session_ids_are_random_uuids() {
    let first = new_session_id();
    let second = new_session_id();
    assert_uuid(&first);
    assert_uuid(&second);
    assert_ne!(first, second);
}
