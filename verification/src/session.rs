//! One client session.
//!
//! A session is told what happened and answers with a [`Step`]: actions to carry out in order,
//! and what it needs next.  The caller measures energy, waits or resamples, and tells the session,
//! or just calls it again, until the step says [`Next::Done`]; then it may pass on the next
//! message.

use crate::audio::{AudioLogger, AudioLoggerModel, Track, WavFile};
use crate::cancel;
use crate::codec;
use crate::config::ServerConfig;
use crate::energy::Energy;
use crate::mock_response;
use crate::mock_response::{
    generate_audio_response, generate_interrupted, generate_text_response, generate_tool_call,
    generate_turn_complete, generate_usage_metadata, Resampled,
};
use crate::pcm;
use crate::protocol::{
    ClientContent, ClientMessage, MessageModel, RealtimeInput, ServerMessage, Setup, SetupComplete,
    SetupCompleteMessage, ToolResponse, VoiceActivity, VoiceActivityMessage, VoiceActivityType,
};
use crate::session_model;
use crate::session_model::{ActionModel, NextModel, PendingModel, SessionModel, Signals};
use crate::text;
use crate::vad::{Vad, VadEvent, VadModel};
use tokio_util::sync::CancellationToken;
use vstd::prelude::*;

verus! {

#[derive(Debug, Clone, Copy, PartialEq, Eq, Structural)]
pub enum SessionState {
    AwaitingSetup,
    Ready,
    ReceivingAudio,
    Processing,
    Responding,
}

/// Events sent from the session to the server for transmission to the client.
#[derive(Debug)]
pub enum SessionEvent {
    SendMessage(String),
    Close,
}

/// Something that the session wants done.
#[derive(Debug)]
pub enum Action {
    /// Send a message to the client.
    Send(ServerMessage),
    /// Write samples to the log of the input.
    LogInput(Vec<i16>),
    /// Write samples to the log of the output.
    LogOutput(Vec<i16>),
}

/// What the session needs before it can go on.
#[derive(Debug)]
pub enum Next {
    /// Nothing: the message has been dealt with.
    Done,
    /// The energy of these samples: call [`Session::handle_energy`].
    MeasureEnergy(Vec<i16>),
    /// So many milliseconds to pass, or cancellation: call [`Session::generate_response`].
    Delay(u64),
    /// These chunks at the new rate: call [`Session::send_response_content`].
    Resample(Vec<Vec<i16>>),
    /// Only to be called again: call [`Session::handle_kept_signals`].
    Continue,
}

/// What the session answers.
#[derive(Debug)]
pub struct Step {
    pub actions: Vec<Action>,
    pub next: Next,
}

impl View for Action {
    type V = ActionModel;

    open spec fn view(&self) -> ActionModel {
        match self {
            Action::Send(m) => ActionModel::Send(m@),
            Action::LogInput(samples) => ActionModel::LogInput(samples@),
            Action::LogOutput(samples) => ActionModel::LogOutput(samples@),
        }
    }
}

/// Actions as contracts speak of them.
pub open spec fn actions_view(actions: Seq<Action>) -> Seq<ActionModel> {
    Seq::new(actions.len(), |i: int| actions[i]@)
}

impl View for Next {
    type V = NextModel;

    open spec fn view(&self) -> NextModel {
        match self {
            Next::Done => NextModel::Done,
            Next::MeasureEnergy(samples) => NextModel::MeasureEnergy(samples@),
            Next::Delay(ms) => NextModel::Delay(*ms),
            Next::Resample(chunks) => NextModel::Resample(mock_response::chunks_view(chunks@)),
            Next::Continue => NextModel::Continue,
        }
    }
}

/// Adds an action at the end.
fn push(actions: &mut Vec<Action>, action: Action)
    ensures
        actions_view(final(actions)@) == actions_view(old(actions)@).push(action@),
{
    actions.push(action);
    assert(actions_view(actions@) =~= actions_view(old(actions)@).push(action@));
}

/// What a session is waiting for, and what it has to go on with afterwards.
enum Pending {
    Nothing,
    Energy { samples: Vec<i16>, signals: Signals },
    Delay { signals: Signals },
    Resampling { signals: Signals },
    Signals { signals: Signals },
}

pub struct Session {
    pub id: String,
    state: SessionState,
    response_delay: u64,
    tool_call_interval: Option<u32>,
    vad: Vad,
    audio_logger: Option<AudioLogger>,
    turn_count: u32,
    audio_buffer: Vec<i16>,
    cancellation_token: CancellationToken,
    has_audio_modality: bool,
    awaiting_tool_response: bool,
    pending: Pending,
}

impl View for Pending {
    type V = PendingModel;

    closed spec fn view(&self) -> PendingModel {
        match self {
            Pending::Nothing => PendingModel::Nothing,
            Pending::Energy { samples, signals } => PendingModel::Energy {
                samples: samples@,
                signals: *signals,
            },
            Pending::Delay { signals } => PendingModel::Delay { signals: *signals },
            Pending::Resampling { signals } => PendingModel::Resampling { signals: *signals },
            Pending::Signals { signals } => PendingModel::Signals { signals: *signals },
        }
    }
}

impl View for Session {
    type V = SessionModel;

    closed spec fn view(&self) -> SessionModel {
        SessionModel {
            id: self.id@,
            state: self.state,
            response_delay: self.response_delay,
            tool_calls: self.tool_call_interval,
            logger: match self.audio_logger {
                Some(logger) => Some(logger@),
                None => None,
            },
            vad: self.vad@,
            turn_count: self.turn_count as nat,
            audio_buffer: self.audio_buffer@,
            token: self.cancellation_token,
            has_audio_modality: self.has_audio_modality,
            awaiting_tool_response: self.awaiting_tool_response,
            pending: self.pending@,
        }
    }
}

/// The logs of a new session.
pub open spec fn new_logger(id: Seq<char>, config: ServerConfig) -> Option<AudioLoggerModel> {
    match config.audio_output_dir {
        Some(dir) => Some(
            AudioLoggerModel { session_id: id, output_dir: dir@, open: Set::empty() },
        ),
        None => None,
    }
}

/// A session that nothing has happened to yet.
pub open spec fn new_session(
    id: Seq<char>,
    config: ServerConfig,
    token: CancellationToken,
) -> SessionModel {
    SessionModel {
        id,
        state: SessionState::AwaitingSetup,
        response_delay: config.response_delay,
        tool_calls: config.tool_calls(),
        logger: new_logger(id, config),
        vad: VadModel::fresh(
            config.vad_energy_threshold.spec_bits(),
            config.vad_silence_frames as nat,
        ),
        turn_count: 0,
        audio_buffer: Seq::empty(),
        token,
        has_audio_modality: false,
        awaiting_tool_response: false,
        pending: PendingModel::Nothing,
    }
}

/// Whether a list of modalities holds audio.
fn requests_audio(modalities: &Vec<String>) -> (result: bool)
    ensures
        result == session_model::names_audio(modalities@),
{
    let mut i: usize = 0;
    while i < modalities.len()
        invariant
            i <= modalities@.len(),
            forall|j: int|
                0 <= j < i ==> !text::same_ignoring_ascii_case(
                    #[trigger] modalities@[j]@,
                    "audio"@,
                ),
        decreases modalities@.len() - i,
    {
        if text::eq_ignore_ascii_case(modalities[i].as_str(), "audio") {
            return true;
        }
        i = i + 1;
    }
    false
}

/// The signals of a realtime input.
fn signals_in(input: &RealtimeInput) -> (signals: Signals)
    ensures
        signals == session_model::signals_of(*input),
{
    Signals {
        activity_start: input.activity_start.is_some(),
        activity_end: input.activity_end.is_some(),
        audio_stream_end: match input.audio_stream_end {
            Some(end) => end,
            None => false,
        },
    }
}

/// What to wait for when a turn is over, with the signals that were kept for later.
fn keep(signals: Signals) -> (pending: Pending)
    ensures
        pending@ == session_model::kept(signals),
{
    if signals.activity_start || signals.activity_end || signals.audio_stream_end {
        Pending::Signals { signals }
    } else {
        Pending::Nothing
    }
}

/// A copy of some samples.
fn copy_samples(samples: &Vec<i16>) -> (result: Vec<i16>)
    ensures
        result@ == samples@,
{
    let result: Vec<i16> = samples.clone();
    assert(result@ =~= samples@);
    result
}

/// Decode base64 audio to samples. There are none if the text is not valid base64.
fn decode_frame(base64_data: &str) -> (samples: Vec<i16>)
    ensures
        samples@ == session_model::frame_samples(base64_data@),
{
    match codec::base64_decode(base64_data) {
        Some(bytes) => pcm::samples_from_bytes(bytes.as_slice()),
        None => Vec::new(),
    }
}

impl Session {
    pub fn new(id: String, config: ServerConfig, cancellation_token: CancellationToken) -> (session:
        Session)
        ensures
            session@ == new_session(id@, config, cancellation_token),
            session@.wf(),
            session@.id == id@,
            session@.token == cancellation_token,
            session@.response_delay == config.response_delay,
            session@.vad.energy_threshold == config.vad_energy_threshold.spec_bits(),
            session@.vad.silence_frames_threshold == config.vad_silence_frames,
            session@.state == SessionState::AwaitingSetup,
            session@.turn_count == 0,
    {
        let audio_logger = match &config.audio_output_dir {
            Some(dir) => Some(AudioLogger::new(id.clone(), dir.clone())),
            None => None,
        };
        let vad = Vad::new(config.vad_energy_threshold, config.vad_silence_frames);
        Session {
            id,
            state: SessionState::AwaitingSetup,
            response_delay: config.response_delay,
            tool_call_interval: config.tool_call_interval_option(),
            vad,
            audio_logger,
            turn_count: 0,
            audio_buffer: Vec::new(),
            cancellation_token,
            has_audio_modality: false,
            awaiting_tool_response: false,
            pending: Pending::Nothing,
        }
    }

    /// Returns a clone of the cancellation token for use in other tasks.
    pub fn cancellation_token(&self) -> (token: CancellationToken)
        ensures
            token == self@.token,
    {
        cancel::same_token(&self.cancellation_token)
    }

    /// Cancel the session, signaling that it should end.
    pub fn cancel(&self)
        ensures
            cancel::told(self@.token),
    {
        cancel::tell(&self.cancellation_token)
    }

    /// Check if the session has been cancelled. Other tasks may cancel it at any time.
    pub fn is_cancelled(&self) -> (cancelled: bool)
        ensures
            cancel::seen(self@.token, cancelled),
    {
        cancel::look(&self.cancellation_token)
    }

    pub fn state(&self) -> (state: SessionState)
        ensures
            state == self@.state,
    {
        self.state
    }

    /// How many turns the session has responded to.
    pub fn turn_count(&self) -> (count: u32)
        ensures
            count == self@.turn_count,
    {
        self.turn_count
    }

    /// The file to create before samples can go to a track: none if there is one already, and
    /// none if there are no logs.
    pub fn log_file(&self, track: Track) -> (file: Option<WavFile>)
        ensures
            crate::audio::file_view(file) == match self@.logger {
                Some(logger) => logger.to_create(track),
                None => None,
            },
    {
        match &self.audio_logger {
            Some(logger) => match track {
                Track::Input => logger.write_input(),
                Track::Output => logger.write_output(),
            },
            None => None,
        }
    }

    /// Note that the file of a track has been created.
    pub fn log_created(&mut self, track: Track)
        ensures
            final(self)@ == (SessionModel {
                logger: match old(self)@.logger {
                    Some(logger) => Some(
                        AudioLoggerModel { open: logger.open.insert(track), ..logger },
                    ),
                    None => None,
                },
                ..old(self)@
            }),
    {
        match &mut self.audio_logger {
            Some(logger) => {
                logger.created(track);
            },
            None => {},
        }
    }

    /// What the session needs before it can go on.
    fn next(&self) -> (next: Next)
        ensures
            next@ == self@.next(),
    {
        match &self.pending {
            Pending::Nothing => Next::Done,
            Pending::Energy { samples, .. } => Next::MeasureEnergy(copy_samples(samples)),
            Pending::Delay { .. } => Next::Delay(self.response_delay),
            Pending::Resampling { .. } => Next::Resample(
                mock_response::resample_chunks(self.audio_buffer.as_slice()),
            ),
            Pending::Signals { .. } => Next::Continue,
        }
    }

    /// What the session answers: the given actions, and what it needs next.
    fn step(&self, actions: Vec<Action>) -> (step: Step)
        ensures
            step.actions == actions,
            step.next@ == self@.next(),
    {
        let next = self.next();
        Step { actions, next }
    }

    /// Whether signals begin a turn when they are looked at.
    fn signals_start_turn(&self, signals: Signals) -> (result: bool)
        ensures
            result == (self@.after_signals(signals).turn_count > self@.turn_count),
    {
        (signals.activity_start || self.state == SessionState::ReceivingAudio) && (
        signals.activity_end || (signals.audio_stream_end && self.audio_buffer.len() > 0))
    }

    /// Whether a message begins a turn at once.
    pub fn message_starts_turn(&self, msg: &ClientMessage) -> (result: bool)
        requires
            self@.wf(),
            self@.pending is Nothing,
        ensures
            result == (self@.on_message(*msg).session.turn_count > self@.turn_count),
    {
        if msg.setup.is_some() {
            false
        } else if let Some(content) = &msg.client_content {
            self.state == SessionState::Ready && content.turn_complete
        } else if let Some(input) = &msg.realtime_input {
            // The energy of a frame has to be known before the signals are looked at
            let waits = match &input.audio {
                Some(audio) => decode_frame(audio.data.as_str()).len() > 0,
                None => false,
            };
            self.takes_realtime_input() && !waits && self.signals_start_turn(signals_in(input))
        } else {
            false
        }
    }

    /// Whether the signals that were kept for later begin another turn.
    pub fn kept_signals_start_turn(&self) -> (result: bool)
        requires
            self@.wf(),
            self@.pending is Signals,
        ensures
            result == (self@.on_kept_signals().session.turn_count > self@.turn_count),
    {
        match self.pending {
            Pending::Signals { signals } => self.signals_start_turn(signals),
            _ => false,
        }
    }

    /// Whether a frame of this energy, along with the signals that came with it, begins a turn.
    pub fn energy_starts_turn(&self, energy: Energy) -> (result: bool)
        requires
            self@.wf(),
            self@.pending is Energy,
        ensures
            result == (self@.on_energy(energy.spec_bits()).session.turn_count > self@.turn_count),
    {
        if let Pending::Energy { signals, .. } = &self.pending {
            assert(self.audio_buffer@.len() > 0);
            match self.vad.event(energy) {
                Some(VadEvent::SpeechEnd) => true,
                Some(VadEvent::SpeechStart) => {
                    (signals.activity_start || self.state == SessionState::ReceivingAudio
                        || self.state == SessionState::Responding) && (signals.activity_end
                        || signals.audio_stream_end)
                },
                None => {
                    (signals.activity_start || self.state == SessionState::ReceivingAudio) && (
                    signals.activity_end || signals.audio_stream_end)
                },
            }
        } else {
            false
        }
    }

    /// Whether the session takes audio and activity signals.
    fn takes_realtime_input(&self) -> (result: bool)
        ensures
            result == self@.takes_realtime_input(),
    {
        // Responding state allows for barge-in (interruption)
        self.state == SessionState::Ready || self.state == SessionState::ReceivingAudio
            || self.state == SessionState::Responding
    }

    /// Handle an incoming client message. The first of its parts that is there is handled, and
    /// the others are not looked at.
    pub fn handle_message(&mut self, msg: ClientMessage) -> (step: Step)
        requires
            old(self)@.wf(),
            old(self)@.pending is Nothing,
            old(self)@.on_message(msg).session.turn_count <= u32::MAX,
        ensures
            final(self)@ == old(self)@.on_message(msg).session,
            actions_view(step.actions@) == old(self)@.on_message(msg).actions,
            step.next@ == final(self)@.next(),
            final(self)@.wf(),
    {
        if let Some(setup) = msg.setup {
            self.handle_setup(setup)
        } else if let Some(client_content) = msg.client_content {
            self.handle_client_content(client_content)
        } else if let Some(realtime_input) = msg.realtime_input {
            self.handle_realtime_input(realtime_input)
        } else if let Some(tool_response) = msg.tool_response {
            self.handle_tool_response(tool_response)
        } else {
            let actions: Vec<Action> = Vec::new();
            assert(actions_view(actions@) =~= seq![]);
            self.step(actions)
        }
    }

    /// Handle an incoming client message as [`Session::handle_message`] does, unless it begins a
    /// turn that cannot be counted any more: then nothing happens, and there is no step.
    pub fn try_handle_message(&mut self, msg: ClientMessage) -> (result: Option<Step>)
        requires
            old(self)@.wf(),
            old(self)@.pending is Nothing,
        ensures
            match result {
                Some(step) => {
                    &&& old(self)@.on_message(msg).session.turn_count <= u32::MAX
                    &&& final(self)@ == old(self)@.on_message(msg).session
                    &&& actions_view(step.actions@) == old(self)@.on_message(msg).actions
                    &&& step.next@ == final(self)@.next()
                },
                None => {
                    &&& old(self)@.on_message(msg).session.turn_count > u32::MAX
                    &&& final(self)@ == old(self)@
                },
            },
            final(self)@.wf(),
    {
        if self.turn_count == u32::MAX && self.message_starts_turn(&msg) {
            None
        } else {
            Some(self.handle_message(msg))
        }
    }

    /// Handle a setup message. Only the first one is confirmed; any other one is ignored.
    pub fn handle_setup(&mut self, setup: Setup) -> (step: Step)
        requires
            old(self)@.wf(),
            old(self)@.pending is Nothing,
        ensures
            final(self)@ == old(self)@.on_setup(setup).session,
            actions_view(step.actions@) == old(self)@.on_setup(setup).actions,
            step.next@ == final(self)@.next(),
            final(self)@.wf(),
            old(self)@.state != SessionState::AwaitingSetup ==> final(self)@ == old(self)@
                && step.actions@.len() == 0,
    {
        let mut actions: Vec<Action> = Vec::new();
        assert(actions_view(actions@) =~= seq![]);
        if self.state != SessionState::AwaitingSetup {
            return self.step(actions);
        }
        if let Some(generation_config) = &setup.generation_config {
            if let Some(modalities) = &generation_config.response_modalities {
                self.has_audio_modality = requests_audio(modalities);
            }
        }
        let response = SetupCompleteMessage {
            setup_complete: SetupComplete { session_id: self.id.clone() },
        };
        push(&mut actions, Action::Send(ServerMessage::SetupComplete(response)));
        self.state = SessionState::Ready;
        assert(actions_view(actions@) =~= old(self)@.on_setup(setup).actions);
        self.step(actions)
    }

    /// Handle turn-based content.
    pub fn handle_client_content(&mut self, content: ClientContent) -> (step: Step)
        requires
            old(self)@.wf(),
            old(self)@.pending is Nothing,
            old(self)@.on_client_content(content).session.turn_count <= u32::MAX,
        ensures
            final(self)@ == old(self)@.on_client_content(content).session,
            actions_view(step.actions@) == old(self)@.on_client_content(content).actions,
            step.next@ == final(self)@.next(),
            final(self)@.wf(),
    {
        let actions: Vec<Action> = Vec::new();
        assert(actions_view(actions@) =~= seq![]);
        if self.state == SessionState::Ready && content.turn_complete {
            self.start_response(
                Signals { activity_start: false, activity_end: false, audio_stream_end: false },
            );
        }
        self.step(actions)
    }

    /// Handle streaming input: the audio frame first, then the signals.
    pub fn handle_realtime_input(&mut self, input: RealtimeInput) -> (step: Step)
        requires
            old(self)@.wf(),
            old(self)@.pending is Nothing,
            old(self)@.on_realtime_input(input).session.turn_count <= u32::MAX,
        ensures
            final(self)@ == old(self)@.on_realtime_input(input).session,
            actions_view(step.actions@) == old(self)@.on_realtime_input(input).actions,
            step.next@ == final(self)@.next(),
            final(self)@.wf(),
    {
        let actions: Vec<Action> = Vec::new();
        assert(actions_view(actions@) =~= seq![]);
        if !self.takes_realtime_input() {
            return self.step(actions);
        }
        let signals = signals_in(&input);
        match &input.audio {
            Some(audio) => self.handle_audio_input(audio.data.as_str(), signals),
            None => {
                self.handle_signals(signals);
                self.step(actions)
            },
        }
    }

    /// Handle a frame of audio in base64, and the signals that came with it.
    pub fn handle_audio_input(&mut self, base64_data: &str, signals: Signals) -> (step: Step)
        requires
            old(self)@.wf(),
            old(self)@.pending is Nothing,
            old(self)@.takes_realtime_input(),
            ({
                let samples = session_model::frame_samples(base64_data@);
                old(self)@.on_audio(samples, signals).session.turn_count <= u32::MAX
            }),
        ensures
            ({
                let samples = session_model::frame_samples(base64_data@);
                &&& final(self)@ == old(self)@.on_audio(samples, signals).session
                &&& actions_view(step.actions@) == old(self)@.on_audio(samples, signals).actions
            }),
            step.next@ == final(self)@.next(),
            final(self)@.wf(),
    {
        let samples: Vec<i16> = decode_frame(base64_data);
        self.handle_audio_samples(samples, signals)
    }

    /// Handle a frame of audio that has been decoded, and the signals that came with it.
    pub fn handle_audio_samples(&mut self, samples: Vec<i16>, signals: Signals) -> (step: Step)
        requires
            old(self)@.wf(),
            old(self)@.pending is Nothing,
            old(self)@.takes_realtime_input(),
            old(self)@.on_audio(samples@, signals).session.turn_count <= u32::MAX,
        ensures
            final(self)@ == old(self)@.on_audio(samples@, signals).session,
            actions_view(step.actions@) == old(self)@.on_audio(samples@, signals).actions,
            step.next@ == final(self)@.next(),
            final(self)@.wf(),
    {
        let mut actions: Vec<Action> = Vec::new();
        assert(actions_view(actions@) =~= seq![]);
        let ghost expected = old(self)@.on_audio(samples@, signals);
        if samples.len() == 0 {
            self.handle_signals(signals);
            return self.step(actions);
        }
        if self.audio_logger.is_some() {
            push(&mut actions, Action::LogInput(copy_samples(&samples)));
        }
        // Update state if we weren't already receiving audio
        if self.state == SessionState::Ready {
            self.state = SessionState::ReceivingAudio;
        }
        // Buffer samples for response generation
        self.audio_buffer.extend_from_slice(samples.as_slice());
        assert(self.audio_buffer@ =~= old(self).audio_buffer@ + samples@);
        self.pending = Pending::Energy { samples, signals };
        assert(actions_view(actions@) =~= expected.actions);
        self.step(actions)
    }

    /// The client's own signals, once everything before them is done.
    fn handle_signals(&mut self, signals: Signals)
        requires
            old(self)@.after_signals(signals).turn_count <= u32::MAX,
        ensures
            final(self)@ == old(self)@.after_signals(signals),
    {
        self.pending = Pending::Nothing;
        if signals.activity_start {
            self.state = SessionState::ReceivingAudio;
        }
        if signals.activity_end {
            if self.state == SessionState::ReceivingAudio {
                self.start_response(
                    Signals {
                        activity_start: false,
                        activity_end: false,
                        audio_stream_end: signals.audio_stream_end,
                    },
                );
                return;
            }
        }
        if signals.audio_stream_end {
            if self.state == SessionState::ReceivingAudio && self.audio_buffer.len() > 0 {
                self.start_response(
                    Signals {
                        activity_start: false,
                        activity_end: false,
                        audio_stream_end: false,
                    },
                );
            }
        }
    }

    /// Go on with the energy of the last frame of audio.
    pub fn handle_energy(&mut self, energy: Energy) -> (step: Step)
        requires
            old(self)@.wf(),
            old(self)@.pending is Energy,
            old(self)@.on_energy(energy.spec_bits()).session.turn_count <= u32::MAX,
        ensures
            final(self)@ == old(self)@.on_energy(energy.spec_bits()).session,
            actions_view(step.actions@) == old(self)@.on_energy(energy.spec_bits()).actions,
            step.next@ == final(self)@.next(),
            final(self)@.wf(),
    {
        let mut actions: Vec<Action> = Vec::new();
        assert(actions_view(actions@) =~= seq![]);
        let mut pending = Pending::Nothing;
        std::mem::swap(&mut pending, &mut self.pending);
        if let Pending::Energy { samples, signals } = pending {
            match self.vad.process(energy) {
                Some(VadEvent::SpeechStart) => {
                    // Check if this is a barge-in (speech during response)
                    if self.state == SessionState::Responding {
                        push(
                            &mut actions,
                            Action::Send(ServerMessage::ServerContent(generate_interrupted())),
                        );
                        // Reset tool response state if we were waiting for one
                        self.awaiting_tool_response = false;
                        self.state = SessionState::ReceivingAudio;
                    }
                    // Clear pre-speech audio and keep only the chunk that triggered speech
                    // detection
                    self.audio_buffer = samples;
                    send_voice_activity(&mut actions, VoiceActivityType::VoiceActivityStart);
                    self.handle_signals(signals);
                },
                Some(VadEvent::SpeechEnd) => {
                    send_voice_activity(&mut actions, VoiceActivityType::VoiceActivityEnd);
                    self.start_response(signals);
                },
                None => {
                    self.handle_signals(signals);
                },
            }
        }
        proof {
            session_model::law_energy_keeps_wf(old(self)@, energy.spec_bits());
            let expected = old(self)@.on_energy(energy.spec_bits());
            assert(actions_view(actions@) =~= expected.actions);
            assert(self@ =~= expected.session);
        }
        self.step(actions)
    }

    /// Handle the response to a tool call, whatever it holds. It is ignored unless one is awaited.
    pub fn handle_tool_response(&mut self, _response: ToolResponse) -> (step: Step)
        requires
            old(self)@.wf(),
            old(self)@.pending is Nothing,
        ensures
            final(self)@ == old(self)@.on_tool_response().session,
            actions_view(step.actions@) == old(self)@.on_tool_response().actions,
            step.next@ == final(self)@.next(),
            final(self)@.wf(),
            !old(self)@.awaiting_tool_response ==> final(self)@ == old(self)@
                && step.actions@.len() == 0,
    {
        let mut actions: Vec<Action> = Vec::new();
        assert(actions_view(actions@) =~= seq![]);
        if !self.awaiting_tool_response {
            return self.step(actions);
        }
        self.awaiting_tool_response = false;
        // Continue with the response after tool call
        self.respond(
            Signals { activity_start: false, activity_end: false, audio_stream_end: false },
            &mut actions,
        );
        assert(actions_view(actions@) =~= old(self)@.on_tool_response().actions);
        self.step(actions)
    }

    /// A turn begins.
    fn start_response(&mut self, signals: Signals)
        requires
            old(self)@.turn_count < u32::MAX,
        ensures
            final(self)@ == old(self)@.start_response(signals),
    {
        self.state = SessionState::Responding;
        self.turn_count = self.turn_count + 1;
        self.pending = Pending::Delay { signals };
    }

    /// Whether the current turn is one with a tool call.
    fn tool_call_due(&self) -> (due: bool)
        requires
            self@.tool_calls != Some(0u32),
        ensures
            due == self@.tool_call_due(),
    {
        match self.tool_call_interval {
            Some(interval) => self.turn_count % interval == 0,
            None => false,
        }
    }

    /// Generate the response to the current turn, now that the delay is over: nothing if the
    /// session has been cancelled meanwhile, else a tool call or the content. Whether it has been
    /// cancelled is what a look at its token shows and nothing else, and the identifier of a tool
    /// call is one that was drawn for it.
    pub fn generate_response(&mut self) -> (step: Step)
        requires
            old(self)@.wf(),
            old(self)@.pending is Delay,
        ensures
            exists|cancelled: bool, uuid: Seq<char>|
                {
                    let outcome = #[trigger] old(self)@.on_delay_over(cancelled, uuid);
                    &&& final(self)@ == outcome.session
                    &&& actions_view(step.actions@) == outcome.actions
                    &&& !cancelled && old(self)@.tool_call_due() ==> codec::is_random_uuid(uuid)
                        && codec::drawn(uuid)
                    &&& cancel::seen(old(self)@.token, cancelled)
                },
            step.next@ == final(self)@.next(),
            final(self)@.wf(),
            final(self)@.turn_count == old(self)@.turn_count,
    {
        let cancelled = self.is_cancelled();
        let uuid: String = if !cancelled && self.tool_call_due() {
            codec::draw_uuid()
        } else {
            String::new()
        };
        self.generate_response_with(cancelled, uuid)
    }

    /// Generate the response to the current turn, for a session that has been cancelled or not,
    /// and with the identifier for a tool call.
    pub fn generate_response_with(&mut self, cancelled: bool, uuid: String) -> (step: Step)
        requires
            old(self)@.wf(),
            old(self)@.pending is Delay,
        ensures
            final(self)@ == old(self)@.on_delay_over(cancelled, uuid@).session,
            actions_view(step.actions@) == old(self)@.on_delay_over(cancelled, uuid@).actions,
            step.next@ == final(self)@.next(),
            final(self)@.wf(),
            final(self)@.turn_count == old(self)@.turn_count,
            !cancelled && old(self)@.tool_call_due() ==> {
                &&& final(self)@.state == SessionState::Responding
                &&& final(self)@.awaiting_tool_response
            },
    {
        let mut actions: Vec<Action> = Vec::new();
        assert(actions_view(actions@) =~= seq![]);
        if let Pending::Delay { signals } = self.pending {
            if cancelled {
                self.pending = keep(signals);
            } else if self.tool_call_due() {
                let call_id: String = "call_".to_owned().concat(uuid.as_str());
                push(
                    &mut actions,
                    Action::Send(ServerMessage::ToolCall(generate_tool_call(call_id.as_str()))),
                );
                self.awaiting_tool_response = true;
                self.pending = keep(signals);
            } else {
                self.respond(signals, &mut actions);
            }
        }
        proof {
            session_model::law_delay_over_keeps_wf(old(self)@, cancelled, uuid@);
            let expected = old(self)@.on_delay_over(cancelled, uuid@);
            assert(actions_view(actions@) =~= expected.actions);
        }
        self.step(actions)
    }

    /// The response is due: its audio has to be resampled first, where there is any.
    fn respond(&mut self, signals: Signals, actions: &mut Vec<Action>)
        ensures
            final(self)@ == old(self)@.respond(signals).session,
            actions_view(final(actions)@) == actions_view(old(actions)@) + old(self)@.respond(
                signals,
            ).actions,
    {
        if self.has_audio_modality && self.audio_buffer.len() > 0 {
            self.pending = Pending::Resampling { signals };
            assert(actions_view(actions@) =~= actions_view(actions@) + Seq::empty());
        } else {
            self.end_turn(signals, actions);
            assert(actions_view(actions@) =~= actions_view(old(actions)@) + old(self)@.respond(
                signals,
            ).actions);
        }
    }

    /// Send the content of the response, with its audio at the new rate.
    pub fn send_response_content(&mut self, resampled: &Resampled) -> (step: Step)
        requires
            old(self)@.wf(),
            old(self)@.pending is Resampling,
            resampled matches Ok(outputs) ==> mock_response::fits_message(
                mock_response::joined(outputs@).len(),
            ),
        ensures
            final(self)@ == old(self)@.on_resampled(*resampled).session,
            actions_view(step.actions@) == old(self)@.on_resampled(*resampled).actions,
            step.next@ == final(self)@.next(),
            final(self)@.wf(),
            final(self)@.state == SessionState::Ready,
            final(self)@.audio_buffer == Seq::<i16>::empty(),
            final(self)@.vad == VadModel::fresh(
                old(self)@.vad.energy_threshold,
                old(self)@.vad.silence_frames_threshold,
            ),
            final(self)@.turn_count == old(self)@.turn_count,
    {
        let mut actions: Vec<Action> = Vec::new();
        assert(actions_view(actions@) =~= seq![]);
        if let Pending::Resampling { signals } = self.pending {
            match generate_audio_response(self.audio_buffer.as_slice(), resampled) {
                Ok(response) => {
                    // Write output audio to the log
                    if self.audio_logger.is_some() {
                        if let Some(samples) = mock_response::audio_samples(&response) {
                            push(&mut actions, Action::LogOutput(samples));
                        }
                    }
                    push(&mut actions, Action::Send(ServerMessage::ServerContent(response)));
                },
                Err(_) => {},
            }
            self.end_turn(signals, &mut actions);
        }
        proof {
            session_model::law_resampled_keeps_wf(old(self)@, *resampled);
            let expected = old(self)@.on_resampled(*resampled);
            assert(actions_view(actions@) =~= expected.actions);
        }
        self.step(actions)
    }

    /// Send what ends every turn, and get ready for the next one.
    fn end_turn(&mut self, signals: Signals, actions: &mut Vec<Action>)
        ensures
            final(self)@ == old(self)@.end_turn(seq![], signals).session,
            actions_view(final(actions)@) == actions_view(old(actions)@)
                + session_model::closing_messages(old(self)@.turn_count),
    {
        let text_response = generate_text_response(self.turn_count);
        push(actions, Action::Send(ServerMessage::ServerContent(text_response)));
        push(actions, Action::Send(ServerMessage::ServerContent(generate_turn_complete())));
        push(actions, Action::Send(ServerMessage::UsageMetadata(generate_usage_metadata())));
        // Clear audio buffer and reset VAD for next turn
        self.audio_buffer.clear();
        self.vad.reset();
        self.state = SessionState::Ready;
        self.pending = keep(signals);
        assert(actions_view(actions@) =~= actions_view(old(actions)@)
            + session_model::closing_messages(old(self)@.turn_count));
    }

    /// Look at the signals that were kept for later, now that the turn is over.
    pub fn handle_kept_signals(&mut self) -> (step: Step)
        requires
            old(self)@.wf(),
            old(self)@.pending is Signals,
            old(self)@.on_kept_signals().session.turn_count <= u32::MAX,
        ensures
            final(self)@ == old(self)@.on_kept_signals().session,
            actions_view(step.actions@) == old(self)@.on_kept_signals().actions,
            step.next@ == final(self)@.next(),
            final(self)@.wf(),
    {
        let actions: Vec<Action> = Vec::new();
        assert(actions_view(actions@) =~= seq![]);
        if let Pending::Signals { signals } = self.pending {
            self.handle_signals(signals);
        }
        self.step(actions)
    }

    /// Finalize the session and clean up resources. Returns the tracks whose log files have to be
    /// finalized, in order.
    pub fn finalize(self) -> (tracks: Vec<Track>)
        ensures
            tracks@ == match self@.logger {
                Some(logger) => logger.to_close(),
                None => seq![],
            },
    {
        match self.audio_logger {
            Some(logger) => logger.finalize(),
            None => Vec::new(),
        }
    }
}

/// Tell the client about voice activity.
fn send_voice_activity(actions: &mut Vec<Action>, activity_type: VoiceActivityType)
    ensures
        actions_view(final(actions)@) == actions_view(old(actions)@).push(
            ActionModel::Send(MessageModel::VoiceActivity(activity_type)),
        ),
{
    let msg = VoiceActivityMessage { voice_activity: VoiceActivity { activity_type } };
    push(actions, Action::Send(ServerMessage::VoiceActivity(msg)));
}

/// An identifier for a new session: a random UUID.
pub fn new_session_id() -> (id: String)
    ensures
        codec::is_random_uuid(id@),
        codec::drawn(id@),
{
    codec::draw_uuid()
}

} // verus!
