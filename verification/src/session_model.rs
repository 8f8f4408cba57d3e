//! A session as contracts speak of it.
//!
//! A session answers an input with a list of actions, to be carried out in order, and then may
//! be waiting for something: for the energy of a frame of audio, for the response delay to pass,
//! for resampled audio, or just to be called again for the signals that came with a turn.  The
//! functions `on_...` say, for each input, which session comes after
//! it and which actions are due.

use crate::audio::AudioLoggerModel;
use crate::codec;
use crate::mock_response;
use crate::mock_response::Resampled;
use crate::pcm;
use crate::protocol::{
    ClientContent, ClientMessage, MessageModel, RealtimeInput, Setup, VoiceActivityType,
};
use crate::session::SessionState;
use crate::text;
use crate::vad::{VadEvent, VadModel};
use tokio_util::sync::CancellationToken;
use vstd::prelude::*;

verus! {

/// What a session has to do.
#[verifier::ext_equal]
pub enum ActionModel {
    /// Send a message to the client.
    Send(MessageModel),
    /// Write samples to the log of the input.
    LogInput(Seq<i16>),
    /// Write samples to the log of the output.
    LogOutput(Seq<i16>),
}

/// The signals of a realtime input that are still to be looked at.
#[derive(Clone, Copy)]
pub struct Signals {
    pub activity_start: bool,
    pub activity_end: bool,
    pub audio_stream_end: bool,
}

/// What a session is waiting for, and what it has to go on with afterwards.
#[verifier::ext_equal]
pub enum PendingModel {
    Nothing,
    Energy { samples: Seq<i16>, signals: Signals },
    Delay { signals: Signals },
    Resampling { signals: Signals },
    Signals { signals: Signals },
}

/// What the caller has to do before the session can go on.
#[verifier::ext_equal]
pub enum NextModel {
    Done,
    MeasureEnergy(Seq<i16>),
    Delay(u64),
    Resample(Seq<Seq<i16>>),
    Continue,
}

/// A session.
#[verifier::ext_equal]
pub struct SessionModel {
    pub id: Seq<char>,
    pub state: SessionState,
    pub response_delay: u64,
    /// The interval of turns between tool calls, which is not zero.
    pub tool_calls: Option<u32>,
    /// The audio logs, where there are any.
    pub logger: Option<AudioLoggerModel>,
    pub vad: VadModel,
    pub turn_count: nat,
    pub audio_buffer: Seq<i16>,
    pub token: CancellationToken,
    pub has_audio_modality: bool,
    pub awaiting_tool_response: bool,
    pub pending: PendingModel,
}

/// A session after an input, and the actions that are due.
#[verifier::ext_equal]
pub struct Outcome {
    pub session: SessionModel,
    pub actions: Seq<ActionModel>,
}

/// No signals.
pub open spec fn no_signals() -> Signals {
    Signals { activity_start: false, activity_end: false, audio_stream_end: false }
}

/// What a session waits for when a turn is over, with the signals that were kept for later.
pub open spec fn kept(signals: Signals) -> PendingModel {
    if signals == no_signals() {
        PendingModel::Nothing
    } else {
        PendingModel::Signals { signals }
    }
}

/// The signals of a realtime input.
pub open spec fn signals_of(input: RealtimeInput) -> Signals {
    Signals {
        activity_start: input.activity_start is Some,
        activity_end: input.activity_end is Some,
        audio_stream_end: input.audio_stream_end == Some(true),
    }
}

/// Whether a list of modalities holds audio, in whatever case it is written.
pub open spec fn names_audio(modalities: Seq<String>) -> bool {
    exists|i: int|
        0 <= i < modalities.len() && text::same_ignoring_ascii_case(
            #[trigger] modalities[i]@,
            "audio"@,
        )
}

/// The modalities that a setup lists, if it lists any.
pub open spec fn modalities_of(setup: Setup) -> Option<Seq<String>> {
    match setup.generation_config {
        Some(config) => match config.response_modalities {
            Some(modalities) => Some(modalities@),
            None => None,
        },
        None => None,
    }
}

/// The samples in the base64 text of an audio frame: none if it is not valid base64.
pub open spec fn frame_samples(data: Seq<char>) -> Seq<i16> {
    match codec::base64_data(data) {
        Some(bytes) => pcm::samples(bytes),
        None => Seq::empty(),
    }
}

/// The tool call identifier that is made of a UUID.
pub open spec fn call_id(uuid: Seq<char>) -> Seq<char> {
    "call_"@ + uuid
}

/// The messages that end every turn.
pub open spec fn closing_messages(turn: nat) -> Seq<ActionModel> {
    seq![
        ActionModel::Send(mock_response::text_message(turn)),
        ActionModel::Send(mock_response::turn_complete_message()),
        ActionModel::Send(mock_response::usage_message()),
    ]
}

impl SessionModel {
    /// What holds of every session, whatever it has been through.
    ///
    /// A session that has not been set up is as it was made. A session that is ready holds no
    /// audio, hears silence and waits for nothing, unless signals are still to be looked at. While
    /// it waits for the energy of a frame, that frame is the last in the buffer; while it waits for
    /// the delay to pass, it is responding; while it waits for resampled audio, there is audio;
    /// and signals are kept for later only where there are any.
    pub open spec fn wf(self) -> bool {
        &&& self.vad.wf()
        &&& self.tool_calls != Some(0u32)
        &&& self.turn_count <= u32::MAX
        &&& self.state != SessionState::Processing
        &&& self.awaiting_tool_response ==> self.turn_count > 0
        &&& self.state == SessionState::AwaitingSetup ==> {
            &&& self.turn_count == 0
            &&& !self.has_audio_modality
            &&& self.pending is Nothing
        }
        &&& self.state == SessionState::AwaitingSetup || self.state == SessionState::Ready ==> {
            &&& self.audio_buffer.len() == 0
            &&& self.vad == self.vad.after_reset()
            &&& self.pending is Nothing || self.pending is Signals
        }
        &&& match self.pending {
            PendingModel::Nothing => true,
            PendingModel::Energy { samples, .. } => {
                &&& samples.len() > 0
                &&& samples.is_suffix_of(self.audio_buffer)
            },
            PendingModel::Delay { .. } => {
                &&& self.state == SessionState::Responding
                &&& self.turn_count > 0
            },
            PendingModel::Resampling { .. } => {
                &&& self.has_audio_modality
                &&& self.audio_buffer.len() > 0
                &&& self.turn_count > 0
            },
            PendingModel::Signals { signals } => {
                &&& self.state == SessionState::Ready || self.state == SessionState::Responding
                &&& self.turn_count > 0
                &&& signals != no_signals()
            },
        }
    }

    /// The session that waits for nothing.
    pub open spec fn idle(self) -> SessionModel {
        SessionModel { pending: PendingModel::Nothing, ..self }
    }

    /// What the caller has to do before the session can go on.
    pub open spec fn next(self) -> NextModel {
        match self.pending {
            PendingModel::Nothing => NextModel::Done,
            PendingModel::Energy { samples, .. } => NextModel::MeasureEnergy(samples),
            PendingModel::Delay { .. } => NextModel::Delay(self.response_delay),
            PendingModel::Resampling { .. } => NextModel::Resample(
                mock_response::chunks(self.audio_buffer),
            ),
            PendingModel::Signals { .. } => NextModel::Continue,
        }
    }

    /// Nothing happens.
    pub open spec fn ignore(self) -> Outcome {
        Outcome { session: self, actions: seq![] }
    }

    /// Whether the current turn is one with a tool call.
    pub open spec fn tool_call_due(self) -> bool {
        self.tool_calls matches Some(interval) && self.turn_count % (interval as nat) == 0
    }

    /// Whether the session takes audio and activity signals.
    pub open spec fn takes_realtime_input(self) -> bool {
        self.state == SessionState::Ready || self.state == SessionState::ReceivingAudio
            || self.state == SessionState::Responding
    }

    /// A turn begins: the session responds as soon as the delay has passed.
    pub open spec fn start_response(self, signals: Signals) -> SessionModel {
        SessionModel {
            state: SessionState::Responding,
            turn_count: self.turn_count + 1,
            pending: PendingModel::Delay { signals },
            ..self
        }
    }

    /// What the client's own signals bring about, once everything before them is done.
    pub open spec fn after_signals(self, signals: Signals) -> SessionModel {
        let heard = SessionModel {
            state: if signals.activity_start {
                SessionState::ReceivingAudio
            } else {
                self.state
            },
            ..self.idle()
        };
        if heard.state != SessionState::ReceivingAudio {
            heard
        } else if signals.activity_end {
            heard.start_response(
                Signals { activity_start: false, activity_end: false, ..signals },
            )
        } else if signals.audio_stream_end && heard.audio_buffer.len() > 0 {
            heard.start_response(no_signals())
        } else {
            heard
        }
    }

    /// A message from the client.
    pub open spec fn on_message(self, message: ClientMessage) -> Outcome {
        if message.setup is Some {
            self.on_setup(message.setup->0)
        } else if message.client_content is Some {
            self.on_client_content(message.client_content->0)
        } else if message.realtime_input is Some {
            self.on_realtime_input(message.realtime_input->0)
        } else if message.tool_response is Some {
            self.on_tool_response()
        } else {
            self.ignore()
        }
    }

    /// A setup message: the first one is confirmed, any other is ignored.
    pub open spec fn on_setup(self, setup: Setup) -> Outcome {
        if self.state != SessionState::AwaitingSetup {
            self.ignore()
        } else {
            Outcome {
                session: SessionModel {
                    state: SessionState::Ready,
                    has_audio_modality: match modalities_of(setup) {
                        Some(modalities) => names_audio(modalities),
                        None => self.has_audio_modality,
                    },
                    ..self
                },
                actions: seq![
                    ActionModel::Send(MessageModel::SetupComplete { session_id: self.id }),
                ],
            }
        }
    }

    /// Turn-based content: a complete turn is responded to when the session is ready.
    pub open spec fn on_client_content(self, content: ClientContent) -> Outcome {
        if self.state == SessionState::Ready && content.turn_complete {
            Outcome { session: self.start_response(no_signals()), actions: seq![] }
        } else {
            self.ignore()
        }
    }

    /// Streaming input: the audio frame first, then the signals.
    pub open spec fn on_realtime_input(self, input: RealtimeInput) -> Outcome {
        if !self.takes_realtime_input() {
            self.ignore()
        } else {
            match input.audio {
                Some(audio) => self.on_audio(frame_samples(audio.data@), signals_of(input)),
                None => Outcome {
                    session: self.after_signals(signals_of(input)),
                    actions: seq![],
                },
            }
        }
    }

    /// A frame of audio: it is logged and buffered, and its energy has to be known.
    pub open spec fn on_audio(self, samples: Seq<i16>, signals: Signals) -> Outcome {
        if samples.len() == 0 {
            Outcome { session: self.after_signals(signals), actions: seq![] }
        } else {
            Outcome {
                session: SessionModel {
                    state: if self.state == SessionState::Ready {
                        SessionState::ReceivingAudio
                    } else {
                        self.state
                    },
                    audio_buffer: self.audio_buffer + samples,
                    pending: PendingModel::Energy { samples, signals },
                    ..self
                },
                actions: if self.logger is Some {
                    seq![ActionModel::LogInput(samples)]
                } else {
                    seq![]
                },
            }
        }
    }

    /// The energy of the last frame of audio, as a bit pattern.
    pub open spec fn on_energy(self, energy: u32) -> Outcome {
        if let PendingModel::Energy { samples, signals } = self.pending {
            let is_speech = self.vad.is_speech(energy);
            let heard = SessionModel { vad: self.vad.after(is_speech), ..self };
            match self.vad.event(is_speech) {
                None => Outcome { session: heard.after_signals(signals), actions: seq![] },
                Some(VadEvent::SpeechStart) => heard.on_speech_start(samples, signals),
                Some(VadEvent::SpeechEnd) => Outcome {
                    session: heard.start_response(signals),
                    actions: seq![
                        ActionModel::Send(
                            MessageModel::VoiceActivity(VoiceActivityType::VoiceActivityEnd),
                        ),
                    ],
                },
            }
        } else {
            self.ignore()
        }
    }

    /// Speech has started: what was buffered before it is dropped, and a response that is under
    /// way is interrupted.
    pub open spec fn on_speech_start(self, samples: Seq<i16>, signals: Signals) -> Outcome {
        let started = ActionModel::Send(
            MessageModel::VoiceActivity(VoiceActivityType::VoiceActivityStart),
        );
        if self.state == SessionState::Responding {
            Outcome {
                session: SessionModel {
                    state: SessionState::ReceivingAudio,
                    awaiting_tool_response: false,
                    audio_buffer: samples,
                    ..self
                }.after_signals(signals),
                actions: seq![ActionModel::Send(mock_response::interrupted_message()), started],
            }
        } else {
            Outcome {
                session: SessionModel { audio_buffer: samples, ..self }.after_signals(signals),
                actions: seq![started],
            }
        }
    }

    /// The response delay is over. The session was cancelled or not; `uuid` is there for a tool
    /// call.
    pub open spec fn on_delay_over(self, cancelled: bool, uuid: Seq<char>) -> Outcome {
        if let PendingModel::Delay { signals } = self.pending {
            if cancelled {
                Outcome {
                    session: SessionModel { pending: kept(signals), ..self },
                    actions: seq![],
                }
            } else if self.tool_call_due() {
                Outcome {
                    session: SessionModel {
                        awaiting_tool_response: true,
                        pending: kept(signals),
                        ..self
                    },
                    actions: seq![
                        ActionModel::Send(mock_response::tool_call_message(call_id(uuid))),
                    ],
                }
            } else {
                self.respond(signals)
            }
        } else {
            self.ignore()
        }
    }

    /// The response is due: its audio has to be resampled first, where there is any.
    pub open spec fn respond(self, signals: Signals) -> Outcome {
        if self.has_audio_modality && self.audio_buffer.len() > 0 {
            Outcome {
                session: SessionModel { pending: PendingModel::Resampling { signals }, ..self },
                actions: seq![],
            }
        } else {
            self.end_turn(seq![], signals)
        }
    }

    /// The turn ends, with what was said so far.
    pub open spec fn end_turn(self, said: Seq<ActionModel>, signals: Signals) -> Outcome {
        Outcome {
            session: SessionModel {
                audio_buffer: Seq::empty(),
                vad: self.vad.after_reset(),
                state: SessionState::Ready,
                pending: kept(signals),
                ..self
            },
            actions: said + closing_messages(self.turn_count),
        }
    }

    /// What is said and logged for the audio of a response.
    pub open spec fn audio_actions(self, samples: Seq<i16>) -> Seq<ActionModel> {
        let send = ActionModel::Send(mock_response::audio_message(samples));
        if self.logger is Some {
            seq![ActionModel::LogOutput(samples), send]
        } else {
            seq![send]
        }
    }

    /// The audio of the response has been resampled.
    pub open spec fn on_resampled(self, resampled: Resampled) -> Outcome {
        if let PendingModel::Resampling { signals } = self.pending {
            match mock_response::resampled_audio(self.audio_buffer, resampled) {
                Ok(samples) => self.end_turn(self.audio_actions(samples), signals),
                Err(_) => self.end_turn(seq![], signals),
            }
        } else {
            self.ignore()
        }
    }

    /// The signals that were kept for later are looked at, now that the turn is over.
    pub open spec fn on_kept_signals(self) -> Outcome {
        if let PendingModel::Signals { signals } = self.pending {
            Outcome { session: self.after_signals(signals), actions: seq![] }
        } else {
            self.ignore()
        }
    }

    /// A response to a tool call: it is ignored unless the session waits for one.
    pub open spec fn on_tool_response(self) -> Outcome {
        if self.awaiting_tool_response {
            SessionModel { awaiting_tool_response: false, ..self }.respond(no_signals())
        } else {
            self.ignore()
        }
    }
}

// ---------------------------------------------------------------------------------------------
// What every session keeps
// ---------------------------------------------------------------------------------------------

/// A message leaves a session in order, whatever the message.
pub proof fn law_message_keeps_wf(session: SessionModel, message: ClientMessage)
    requires
        session.wf(),
        session.pending is Nothing,
        session.on_message(message).session.turn_count <= u32::MAX,
    ensures
        session.on_message(message).session.wf(),
{
}

/// The energy of a frame leaves a session in order, whatever the energy.
pub proof fn law_energy_keeps_wf(session: SessionModel, energy: u32)
    requires
        session.wf(),
        session.pending is Energy,
        session.on_energy(energy).session.turn_count <= u32::MAX,
    ensures
        session.on_energy(energy).session.wf(),
{
}

/// The end of the response delay leaves a session in order.
pub proof fn law_delay_over_keeps_wf(session: SessionModel, cancelled: bool, uuid: Seq<char>)
    requires
        session.wf(),
        session.pending is Delay,
    ensures
        session.on_delay_over(cancelled, uuid).session.wf(),
{
}

/// Resampled audio leaves a session in order, whatever the resampler made of it.
pub proof fn law_resampled_keeps_wf(session: SessionModel, resampled: Resampled)
    requires
        session.wf(),
        session.pending is Resampling,
    ensures
        session.on_resampled(resampled).session.wf(),
{
}

/// The signals that were kept for later leave a session in order.
pub proof fn law_kept_signals_keep_wf(session: SessionModel)
    requires
        session.wf(),
        session.pending is Signals,
        session.on_kept_signals().session.turn_count <= u32::MAX,
    ensures
        session.on_kept_signals().session.wf(),
{
}

} // verus!
