//! What holds of every session, over one input or several.

use crate::audio::Track;
use crate::codec;
use crate::config::ServerConfig;
use crate::energy;
use crate::mock_response;
use crate::mock_response::Resampled;
use crate::pcm;
use crate::protocol::{
    ClientContent, ClientMessage, MessageModel, RealtimeInput, Setup, VoiceActivityType,
};
use crate::session::{Action, Next, SessionState};
use crate::session_model;
use crate::session_model::{
    ActionModel, NextModel, Outcome, PendingModel, SessionModel, Signals,
};
use crate::text;
use crate::vad::{VadEvent, VadModel, VadState};
use tokio_util::sync::CancellationToken;
use vstd::prelude::*;

verus! {

// ---------------------------------------------------------------------------------------------
// Inputs of any kind
// ---------------------------------------------------------------------------------------------

/// An input to a session, of whatever kind.
pub enum Input {
    Message(ClientMessage),
    Energy(u32),
    DelayOver { cancelled: bool, uuid: Seq<char> },
    Resampled(Resampled),
    KeptSignals,
}

/// Whether the session is waiting for an input of this kind, and has room for the turn that the
/// input begins, if it begins one.
pub open spec fn takes(session: SessionModel, input: Input) -> bool {
    match input {
        Input::Message(message) => {
            &&& session.pending is Nothing
            &&& session.on_message(message).session.turn_count <= u32::MAX
        },
        Input::Energy(energy) => {
            &&& session.pending is Energy
            &&& session.on_energy(energy).session.turn_count <= u32::MAX
        },
        Input::DelayOver { .. } => session.pending is Delay,
        Input::Resampled(_) => session.pending is Resampling,
        Input::KeptSignals => {
            &&& session.pending is Signals
            &&& session.on_kept_signals().session.turn_count <= u32::MAX
        },
    }
}

/// What comes of an input.
pub open spec fn outcome(session: SessionModel, input: Input) -> Outcome {
    match input {
        Input::Message(message) => session.on_message(message),
        Input::Energy(energy) => session.on_energy(energy),
        Input::DelayOver { cancelled, uuid } => session.on_delay_over(cancelled, uuid),
        Input::Resampled(resampled) => session.on_resampled(resampled),
        Input::KeptSignals => session.on_kept_signals(),
    }
}

/// Whatever the input, a session stays well formed. In particular it is never seen in the state
/// `Processing`, a session that is ready holds no audio, and a session that awaits a tool response
/// has responded to some turn.
pub proof fn law_inputs_keep_wf(session: SessionModel, input: Input)
    requires
        session.wf(),
        takes(session, input),
    ensures
        outcome(session, input).session.wf(),
{
    match input {
        Input::Message(message) => {
            session_model::law_message_keeps_wf(session, message);
        },
        Input::Energy(energy) => {
            session_model::law_energy_keeps_wf(session, energy);
        },
        Input::DelayOver { cancelled, uuid } => {
            session_model::law_delay_over_keeps_wf(session, cancelled, uuid);
        },
        Input::Resampled(resampled) => {
            session_model::law_resampled_keeps_wf(session, resampled);
        },
        Input::KeptSignals => {
            session_model::law_kept_signals_keep_wf(session);
        },
    }
}

/// Whatever the input, a session stays the same session: its identifier, its settings, its logs
/// and its token do not change.
pub proof fn law_identity_is_kept(session: SessionModel, input: Input)
    ensures
        ({
            let later = outcome(session, input).session;
            &&& later.id == session.id
            &&& later.response_delay == session.response_delay
            &&& later.tool_calls == session.tool_calls
            &&& later.logger == session.logger
            &&& later.token == session.token
            &&& later.vad.energy_threshold == session.vad.energy_threshold
            &&& later.vad.silence_frames_threshold == session.vad.silence_frames_threshold
        }),
{
}

/// Turns are counted one by one: an input begins a turn if and only if it raises the count by
/// one and makes the session wait for the response delay; otherwise the count stays.
pub proof fn law_turns_are_counted(session: SessionModel, input: Input)
    requires
        session.wf(),
        takes(session, input),
    ensures
        ({
            let later = outcome(session, input).session;
            if later.pending is Delay {
                later.turn_count == session.turn_count + 1
            } else {
                later.turn_count == session.turn_count
            }
        }),
{
}

/// Once a session has been set up it stays so, with the modalities that it was set up with.
pub proof fn law_setup_is_final(session: SessionModel, input: Input)
    requires
        session.wf(),
        takes(session, input),
        session.state != SessionState::AwaitingSetup,
    ensures
        outcome(session, input).session.state != SessionState::AwaitingSetup,
        outcome(session, input).session.has_audio_modality == session.has_audio_modality,
{
}

/// A session without logs logs nothing. With logs, it logs the samples of every frame that it
/// takes, before anything else, and the samples of every audio response, just before it sends it.
pub proof fn law_what_is_logged(session: SessionModel, input: Input, i: int)
    requires
        session.wf(),
        takes(session, input),
        0 <= i < outcome(session, input).actions.len(),
    ensures
        ({
            let actions = outcome(session, input).actions;
            let later = outcome(session, input).session;
            match actions[i] {
                ActionModel::LogInput(samples) => {
                    &&& session.logger is Some
                    &&& i == 0
                    &&& later.next() == NextModel::MeasureEnergy(samples)
                },
                ActionModel::LogOutput(samples) => {
                    &&& session.logger is Some
                    &&& i + 1 < actions.len()
                    &&& actions[i + 1] == ActionModel::Send(mock_response::audio_message(samples))
                },
                ActionModel::Send(_) => true,
            }
        }),
        outcome(session, input).session.pending is Energy && session.logger is Some ==> outcome(
            session,
            input,
        ).actions[0] is LogInput,
{
}

/// How far a session is from being done with a message.
pub open spec fn steps_left(session: SessionModel) -> nat {
    match session.pending {
        PendingModel::Nothing => 0,
        PendingModel::Energy { .. } => 7,
        PendingModel::Delay { signals } => if signals.activity_start {
            6
        } else {
            3
        },
        PendingModel::Resampling { signals } => if signals.activity_start {
            5
        } else {
            2
        },
        PendingModel::Signals { signals } => if signals.activity_start {
            4
        } else {
            1
        },
    }
}

/// Every message is done with after a few steps: whatever the session is told when it waits
/// brings it nearer to the end.
pub proof fn law_steps_come_to_an_end(session: SessionModel, input: Input)
    requires
        session.wf(),
        takes(session, input),
        !(input is Message),
    ensures
        steps_left(outcome(session, input).session) < steps_left(session),
{
}

// ---------------------------------------------------------------------------------------------
// Runs
// ---------------------------------------------------------------------------------------------

/// What comes of a run of inputs.
pub open spec fn run(session: SessionModel, inputs: Seq<Input>) -> Outcome
    decreases inputs.len(),
{
    if inputs.len() == 0 {
        session.ignore()
    } else {
        let before = run(session, inputs.drop_last());
        let last = outcome(before.session, inputs.last());
        Outcome { session: last.session, actions: before.actions + last.actions }
    }
}

/// Whether each input of a run comes when the session is waiting for one of its kind.
pub open spec fn takes_all(session: SessionModel, inputs: Seq<Input>) -> bool
    decreases inputs.len(),
{
    inputs.len() > 0 ==> {
        &&& takes_all(session, inputs.drop_last())
        &&& takes(run(session, inputs.drop_last()).session, inputs.last())
    }
}

/// How many turns have been answered: the number of turn complete signals.
pub open spec fn answers(actions: Seq<ActionModel>) -> nat
    decreases actions.len(),
{
    if actions.len() == 0 {
        0
    } else {
        answers(actions.drop_last()) + if actions.last() == ActionModel::Send(
            mock_response::turn_complete_message(),
        ) {
            1nat
        } else {
            0nat
        }
    }
}

/// How many answers the session still owes: one if it is about to respond, and one if it awaits
/// a tool response.
pub open spec fn owed(session: SessionModel) -> nat {
    (if session.pending is Delay || session.pending is Resampling {
        1nat
    } else {
        0nat
    }) + (if session.awaiting_tool_response {
        1nat
    } else {
        0nat
    })
}

/// Whatever a session goes through, it stays well formed.
pub proof fn law_runs_keep_wf(session: SessionModel, inputs: Seq<Input>)
    requires
        session.wf(),
        takes_all(session, inputs),
    ensures
        run(session, inputs).session.wf(),
    decreases inputs.len(),
{
    if inputs.len() > 0 {
        law_runs_keep_wf(session, inputs.drop_last());
        law_inputs_keep_wf(run(session, inputs.drop_last()).session, inputs.last());
    }
}

/// Over any run, a session gives no more answers than there were turns, along with those that it
/// owed before and less those that it owes after.
pub proof fn law_no_more_answers_than_turns(session: SessionModel, inputs: Seq<Input>)
    requires
        session.wf(),
        takes_all(session, inputs),
    ensures
        ({
            let out = run(session, inputs);
            answers(out.actions) + owed(out.session) + session.turn_count <= owed(session)
                + out.session.turn_count
        }),
    decreases inputs.len(),
{
    if inputs.len() > 0 {
        let before = run(session, inputs.drop_last());
        law_no_more_answers_than_turns(session, inputs.drop_last());
        law_runs_keep_wf(session, inputs.drop_last());
        lemma_answers_of_one_input(before.session, inputs.last());
        lemma_answers_add_up(before.actions, outcome(before.session, inputs.last()).actions);
    }
}

proof fn lemma_answers_add_up(first: Seq<ActionModel>, second: Seq<ActionModel>)
    ensures
        answers(first + second) == answers(first) + answers(second),
    decreases second.len(),
{
    if second.len() == 0 {
        assert(first + second =~= first);
    } else {
        assert((first + second).drop_last() =~= first + second.drop_last());
        lemma_answers_add_up(first, second.drop_last());
    }
}

proof fn lemma_answers_of_one_input(session: SessionModel, input: Input)
    requires
        session.wf(),
        takes(session, input),
    ensures
        ({
            let out = outcome(session, input);
            answers(out.actions) + owed(out.session) + session.turn_count <= owed(session)
                + out.session.turn_count
        }),
{
    let out = outcome(session, input);
    reveal_with_fuel(answers, 6);
    let closing = session_model::closing_messages(session.turn_count);
    assert(closing.drop_last().drop_last().drop_last() =~= Seq::empty());
    if out.actions.len() >= 3 {
        let said = out.actions.take(out.actions.len() - 3);
        assert(out.actions =~= said + closing);
        lemma_answers_add_up(said, closing);
    }
}

/// How many responses have come due in a run: the number of times that the delay was over.
pub open spec fn responses(inputs: Seq<Input>) -> nat
    decreases inputs.len(),
{
    if inputs.len() == 0 {
        0
    } else {
        responses(inputs.drop_last()) + if inputs.last() is DelayOver {
            1nat
        } else {
            0nat
        }
    }
}

/// Over any run, the turn count rises by the number of responses that come due, along with the
/// one that is waited for after and less the one that was waited for before.
pub proof fn law_responses_are_counted(session: SessionModel, inputs: Seq<Input>)
    requires
        session.wf(),
        takes_all(session, inputs),
    ensures
        ({
            let later = run(session, inputs).session;
            session.turn_count + responses(inputs) + (if later.pending is Delay {
                1nat
            } else {
                0nat
            }) == later.turn_count + (if session.pending is Delay {
                1nat
            } else {
                0nat
            })
        }),
        run(session, inputs).session.tool_calls == session.tool_calls,
    decreases inputs.len(),
{
    if inputs.len() > 0 {
        let before = run(session, inputs.drop_last()).session;
        law_responses_are_counted(session, inputs.drop_last());
        law_runs_keep_wf(session, inputs.drop_last());
        law_turns_are_counted(before, inputs.last());
        law_identity_is_kept(before, inputs.last());
    }
}

/// Whether an input is a message with a setup.
pub open spec fn sets_up(input: Input) -> bool {
    input matches Input::Message(message) && message.setup is Some
}

/// Over any run that begins before setup, the session awaits setup exactly as long as no setup has
/// come; and until then nothing about it changes and nothing is done.
pub proof fn law_setup_is_awaited(session: SessionModel, inputs: Seq<Input>)
    requires
        session.wf(),
        session.state == SessionState::AwaitingSetup,
        takes_all(session, inputs),
    ensures
        run(session, inputs).session.state == SessionState::AwaitingSetup <==> forall|i: int|
            0 <= i < inputs.len() ==> !sets_up(#[trigger] inputs[i]),
        run(session, inputs).session.state == SessionState::AwaitingSetup ==> run(session, inputs)
            == session.ignore(),
    decreases inputs.len(),
{
    if inputs.len() > 0 {
        let n: int = inputs.len() - 1;
        let before = run(session, inputs.drop_last());
        law_setup_is_awaited(session, inputs.drop_last());
        law_runs_keep_wf(session, inputs.drop_last());
        assert(forall|i: int| 0 <= i < n ==> inputs.drop_last()[i] == #[trigger] inputs[i]);
        if before.session.state == SessionState::AwaitingSetup {
            if sets_up(inputs[n]) {
                assert(run(session, inputs).session.state == SessionState::Ready);
            } else {
                law_nothing_before_setup(before.session, inputs.last()->Message_0);
                assert(before.actions + outcome(before.session, inputs.last()).actions
                    =~= Seq::empty());
            }
        } else {
            let k = choose|k: int| 0 <= k < n && sets_up(#[trigger] inputs.drop_last()[k]);
            assert(sets_up(inputs[k]));
            law_setup_is_final(before.session, inputs.last());
        }
    }
}

/// Whether a session that is responding, and is not about to say anything, awaits a tool response.
pub open spec fn silence_is_for_a_tool(session: SessionModel) -> bool {
    session.state == SessionState::Responding && (session.pending is Nothing || session.pending
        is Energy || session.pending is Signals) ==> session.awaiting_tool_response
}

/// Unless it is cancelled, a session that stays in the state `Responding` when it has dealt with a
/// message awaits a tool response, after any run that begins with a session of which this holds,
/// such as a new one.
pub proof fn law_responding_awaits_a_tool(session: SessionModel, inputs: Seq<Input>)
    requires
        session.wf(),
        silence_is_for_a_tool(session),
        takes_all(session, inputs),
        forall|i: int|
            0 <= i < inputs.len() ==> !((#[trigger] inputs[i]) matches Input::DelayOver {
                cancelled,
                ..
            } && cancelled),
    ensures
        silence_is_for_a_tool(run(session, inputs).session),
    decreases inputs.len(),
{
    if inputs.len() > 0 {
        assert(forall|i: int|
            0 <= i < inputs.len() - 1 ==> #[trigger] inputs.drop_last()[i] == inputs[i]);
        law_responding_awaits_a_tool(session, inputs.drop_last());
        law_runs_keep_wf(session, inputs.drop_last());
        assert(inputs.last() == inputs[inputs.len() - 1]);
    }
}

// ---------------------------------------------------------------------------------------------
// Messages
// ---------------------------------------------------------------------------------------------

/// The message with the first part that is there, and no other.
pub open spec fn first_part(message: ClientMessage) -> ClientMessage {
    let nothing = ClientMessage {
        setup: None,
        client_content: None,
        realtime_input: None,
        tool_response: None,
    };
    if message.setup is Some {
        ClientMessage { setup: message.setup, ..nothing }
    } else if message.client_content is Some {
        ClientMessage { client_content: message.client_content, ..nothing }
    } else if message.realtime_input is Some {
        ClientMessage { realtime_input: message.realtime_input, ..nothing }
    } else {
        ClientMessage { tool_response: message.tool_response, ..nothing }
    }
}

/// Of a message, one part is acted on: the first that is there of the setup, the content, the
/// realtime input and the tool response. The message has the effect of one with that part alone,
/// and a message without any part has none.
pub proof fn law_first_part_counts(session: SessionModel, message: ClientMessage)
    ensures
        session.on_message(message) == session.on_message(first_part(message)),
        message.setup is Some ==> session.on_message(message) == session.on_setup(message.setup->0),
        message.setup is None && message.client_content is Some ==> session.on_message(message)
            == session.on_client_content(message.client_content->0),
        message.setup is None && message.client_content is None && message.realtime_input is Some
            ==> session.on_message(message) == session.on_realtime_input(message.realtime_input->0),
        message.setup is None && message.client_content is None && message.realtime_input is None
            && message.tool_response is Some ==> session.on_message(message)
            == session.on_tool_response(),
        message.setup is None && message.client_content is None && message.realtime_input is None
            && message.tool_response is None ==> session.on_message(message) == session.ignore(),
{
}

// ---------------------------------------------------------------------------------------------
// Setup
// ---------------------------------------------------------------------------------------------

/// Before it is set up, a session ignores every message that is no setup.
pub proof fn law_nothing_before_setup(session: SessionModel, message: ClientMessage)
    requires
        session.wf(),
        session.state == SessionState::AwaitingSetup,
        message.setup is None,
    ensures
        session.on_message(message) == session.ignore(),
{
}

/// The first setup is confirmed with the session's identifier, and makes it ready.
pub proof fn law_setup_is_confirmed(session: SessionModel, setup: Setup)
    requires
        session.wf(),
        session.state == SessionState::AwaitingSetup,
    ensures
        session.on_setup(setup).session.state == SessionState::Ready,
        session.on_setup(setup).actions == seq![
            ActionModel::Send(MessageModel::SetupComplete { session_id: session.id }),
        ],
        session.on_setup(setup).session.has_audio_modality
            <==> session_model::modalities_of(setup) is Some && session_model::names_audio(
            session_model::modalities_of(setup)->0,
        ),
{
}

/// Every later setup is ignored.
pub proof fn law_later_setup_is_ignored(session: SessionModel, message: ClientMessage)
    requires
        session.state != SessionState::AwaitingSetup,
        message.setup is Some,
    ensures
        session.on_message(message) == session.ignore(),
{
}

// ---------------------------------------------------------------------------------------------
// Turns
// ---------------------------------------------------------------------------------------------

/// A complete turn of content, sent to a session that is ready, is answered after the delay with
/// the text of that turn, the turn complete signal and the usage, and nothing else, unless the
/// turn is one with a tool call. The session is then as it was, but for the turn count.
pub proof fn law_text_turn(session: SessionModel, content: ClientContent, uuid: Seq<char>)
    requires
        session.wf(),
        session.state == SessionState::Ready,
        session.pending is Nothing,
        content.turn_complete,
        ({
            let waiting = session.on_client_content(content).session;
            !waiting.tool_call_due()
        }),
    ensures
        ({
            let first = session.on_client_content(content);
            let second = first.session.on_delay_over(false, uuid);
            &&& first.actions == Seq::<ActionModel>::empty()
            &&& first.session.next() == NextModel::Delay(session.response_delay)
            &&& second.actions == session_model::closing_messages(session.turn_count + 1)
            &&& second.session == SessionModel { turn_count: session.turn_count + 1, ..session }
        }),
{
    let first = session.on_client_content(content);
    let second = first.session.on_delay_over(false, uuid);
    assert(second.actions =~= session_model::closing_messages(session.turn_count + 1));
    assert(second.session.audio_buffer =~= session.audio_buffer);
}

/// Content without the end of the turn, or sent while the session is not ready, is ignored.
pub proof fn law_unfinished_content_is_ignored(session: SessionModel, content: ClientContent)
    requires
        session.state != SessionState::Ready || !content.turn_complete,
    ensures
        session.on_client_content(content) == session.ignore(),
{
}

/// No message sends content on its own: content waits for the response delay, or for the response
/// to a tool call.
pub proof fn law_content_waits(session: SessionModel, message: ClientMessage, i: int)
    requires
        session.wf(),
        session.pending is Nothing,
        !session.awaiting_tool_response,
        0 <= i < session.on_message(message).actions.len(),
    ensures
        match session.on_message(message).actions[i] {
            ActionModel::Send(m) => m is SetupComplete,
            ActionModel::LogInput(_) => true,
            ActionModel::LogOutput(_) => false,
        },
{
}

/// The signals that a session has kept for later.
pub open spec fn kept_signals(session: SessionModel) -> Signals {
    match session.pending {
        PendingModel::Nothing => session_model::no_signals(),
        PendingModel::Energy { signals, .. } => signals,
        PendingModel::Delay { signals } => signals,
        PendingModel::Resampling { signals } => signals,
        PendingModel::Signals { signals } => signals,
    }
}

/// Whether `later` is how a turn leaves a session: ready, without audio, with a detector like a
/// new one and in the same turn. Only the signals that were kept for later, if there are any, are
/// still to be looked at.
pub open spec fn turn_is_over(session: SessionModel, later: SessionModel) -> bool {
    &&& later.state == SessionState::Ready
    &&& later.audio_buffer == Seq::<i16>::empty()
    &&& later.vad == VadModel::fresh(
        session.vad.energy_threshold,
        session.vad.silence_frames_threshold,
    )
    &&& later.turn_count == session.turn_count
    &&& later.pending == session_model::kept(kept_signals(session))
}

/// What the response to a turn is, when the delay is over and the session has not been cancelled.
/// In a turn with a tool call, that call alone is sent; the session goes on responding and awaits
/// the response to the call. In any other turn no tool call is sent: where there is audio to say,
/// it is resampled first; else the text of the turn, the turn complete signal and the usage are
/// sent, and the turn is over.
pub proof fn law_response(session: SessionModel, uuid: Seq<char>)
    requires
        session.wf(),
        session.pending is Delay,
    ensures
        ({
            let out = session.on_delay_over(false, uuid);
            if session.tool_call_due() {
                &&& out.actions == seq![
                    ActionModel::Send(
                        mock_response::tool_call_message(session_model::call_id(uuid)),
                    ),
                ]
                &&& out.session.state == SessionState::Responding
                &&& out.session == SessionModel {
                    awaiting_tool_response: true,
                    pending: session_model::kept(kept_signals(session)),
                    ..session
                }
            } else if session.has_audio_modality && session.audio_buffer.len() > 0 {
                &&& out.actions == Seq::<ActionModel>::empty()
                &&& out.session.next() == NextModel::Resample(
                    mock_response::chunks(session.audio_buffer),
                )
                &&& out.session == SessionModel {
                    pending: PendingModel::Resampling { signals: kept_signals(session) },
                    ..session
                }
            } else {
                &&& out.actions == session_model::closing_messages(session.turn_count)
                &&& turn_is_over(session, out.session)
                &&& out.session.awaiting_tool_response == session.awaiting_tool_response
            }
        }),
{
    assert(Seq::<ActionModel>::empty() + session_model::closing_messages(session.turn_count)
        =~= session_model::closing_messages(session.turn_count));
}

/// The response to a turn from beginning to end, whatever the resampler makes of the audio.
pub open spec fn whole_response(
    session: SessionModel,
    uuid: Seq<char>,
    resampled: Resampled,
) -> Outcome {
    let first = session.on_delay_over(false, uuid);
    if first.session.pending is Resampling {
        let second = first.session.on_resampled(resampled);
        Outcome { session: second.session, actions: first.actions + second.actions }
    } else {
        first
    }
}

/// Taken as a whole, the response to a turn is either a tool call and nothing else, with the
/// session responding and awaiting the response to it; or it ends with the text of the turn, the
/// turn complete signal and the usage, has nothing before them but the audio and its log, and
/// leaves the session ready.
pub proof fn law_whole_response(session: SessionModel, uuid: Seq<char>, resampled: Resampled)
    requires
        session.wf(),
        session.pending is Delay,
    ensures
        ({
            let out = whole_response(session, uuid, resampled);
            let closing = session_model::closing_messages(session.turn_count);
            if session.tool_call_due() {
                &&& out.actions == seq![
                    ActionModel::Send(
                        mock_response::tool_call_message(session_model::call_id(uuid)),
                    ),
                ]
                &&& out.session.state == SessionState::Responding
                &&& out.session.awaiting_tool_response
                &&& out.session.turn_count == session.turn_count
            } else {
                let has_audio = session.has_audio_modality && session.audio_buffer.len() > 0;
                &&& out.actions == if has_audio && resampled is Ok {
                    session.audio_actions(mock_response::joined(resampled->Ok_0@)) + closing
                } else {
                    closing
                }
                &&& turn_is_over(session, out.session)
            }
        }),
{
    law_response(session, uuid);
    let first = session.on_delay_over(false, uuid);
    if first.session.pending is Resampling {
        law_response_content(first.session, resampled);
        let second = first.session.on_resampled(resampled);
        assert(first.actions + second.actions =~= second.actions);
    }
}

/// Only a session that was cancelled leaves its response out: else, once the delay is over,
/// something is sent or there is audio to resample first, however long the delay was and whatever
/// the turn. The delay makes no difference to what is sent.
pub proof fn law_only_cancellation_silences(
    session: SessionModel,
    cancelled: bool,
    uuid: Seq<char>,
    delay: u64,
)
    requires
        session.wf(),
        session.pending is Delay,
    ensures
        ({
            let out = session.on_delay_over(cancelled, uuid);
            &&& cancelled <==> out.actions.len() == 0 && !(out.session.pending is Resampling)
            &&& SessionModel { response_delay: delay, ..session }.on_delay_over(
                cancelled,
                uuid,
            ).actions == out.actions
        }),
{
}

/// The responses of a session come due turn by turn: the one that comes due after `t` others is
/// that of turn `t + 1`, and with an interval of N turns it is a tool call if and only if N
/// divides `t + 1`.
pub proof fn law_nth_response(session: SessionModel, inputs: Seq<Input>)
    requires
        session.wf(),
        session.turn_count == 0,
        takes_all(session, inputs),
        run(session, inputs).session.pending is Delay,
    ensures
        ({
            let due = run(session, inputs).session;
            let turn = responses(inputs) + 1;
            &&& due.turn_count == turn
            &&& due.tool_call_due() <==> (session.tool_calls matches Some(interval) && turn % (
            interval as nat) == 0)
        }),
{
    law_responses_are_counted(session, inputs);
}

/// What is said once the audio of a response has been resampled. The audio comes first, where the
/// resampler could be set up; then the text of the turn, the turn complete signal and the usage,
/// and the turn is over.
pub proof fn law_response_content(session: SessionModel, resampled: Resampled)
    requires
        session.wf(),
        session.pending is Resampling,
    ensures
        ({
            let out = session.on_resampled(resampled);
            let closing = session_model::closing_messages(session.turn_count);
            &&& out.actions == match resampled {
                Ok(outputs) => session.audio_actions(mock_response::joined(outputs@)) + closing,
                Err(_) => closing,
            }
            &&& turn_is_over(session, out.session)
            &&& out.session.awaiting_tool_response == session.awaiting_tool_response
        }),
{
    assert(Seq::<ActionModel>::empty() + session_model::closing_messages(session.turn_count)
        =~= session_model::closing_messages(session.turn_count));
}

/// The signals that were kept for later say nothing themselves. The start of an activity makes the
/// session listen, and the end of it begins the next turn; so does the end of the audio stream
/// where audio is left, which is only after a tool call or a cancelled response. Without the start
/// of an activity they have no effect.
pub proof fn law_kept_signals(session: SessionModel)
    requires
        session.wf(),
        session.pending is Signals,
    ensures
        ({
            let out = session.on_kept_signals();
            let signals = kept_signals(session);
            let listening = SessionModel {
                state: SessionState::ReceivingAudio,
                ..session.idle()
            };
            &&& out.actions == Seq::<ActionModel>::empty()
            &&& if !signals.activity_start {
                out.session == session.idle()
            } else if signals.activity_end || (signals.audio_stream_end
                && session.audio_buffer.len() > 0) {
                &&& out.session.state == SessionState::Responding
                &&& out.session.turn_count == session.turn_count + 1
                &&& out.session.next() == NextModel::Delay(session.response_delay)
            } else {
                out.session == listening
            }
        }),
{
}

/// However a turn ends, its last three messages are the text, the turn complete signal and the
/// usage; and these three messages end a turn: without all of them nothing but a tool call is
/// said after the delay, and the session is not made ready.
pub proof fn law_every_turn_is_closed(session: SessionModel, input: Input)
    requires
        session.wf(),
        takes(session, input),
        input is DelayOver || input is Resampled,
    ensures
        ({
            let out = outcome(session, input);
            let closing = session_model::closing_messages(session.turn_count);
            if out.actions.len() >= 3 {
                out.actions.skip(out.actions.len() - 3) == closing
            } else {
                &&& input is DelayOver
                &&& out.session.state != SessionState::Ready
                &&& out.actions.len() == 0 || (out.actions.len() == 1
                    && session.tool_call_due())
            }
        }),
{
    let out = outcome(session, input);
    let closing = session_model::closing_messages(session.turn_count);
    if out.actions.len() >= 3 {
        assert(out.actions.skip(out.actions.len() - 3) =~= closing);
    }
}

/// A session that was cancelled before its response says nothing more in that turn.
pub proof fn law_cancelled_session_is_silent(session: SessionModel, uuid: Seq<char>)
    requires
        session.wf(),
        session.pending is Delay,
    ensures
        session.on_delay_over(true, uuid).actions == Seq::<ActionModel>::empty(),
        session.on_delay_over(true, uuid).session == (SessionModel {
            pending: session_model::kept(kept_signals(session)),
            ..session
        }),
{
}

// ---------------------------------------------------------------------------------------------
// Tool calls
// ---------------------------------------------------------------------------------------------

/// With an interval of N turns, each Nth turn is one with a tool call and the turns between are
/// not; without an interval, no turn is.
pub proof fn law_every_nth_turn(session: SessionModel, k: nat, r: nat)
    requires
        session.wf(),
        session.tool_calls matches Some(interval) ==> {
            &&& r < interval
            &&& session.turn_count == k * interval + r
        },
    ensures
        session.tool_call_due() <==> session.tool_calls is Some && r == 0,
{
    if let Some(interval) = session.tool_calls {
        let n: int = interval as int;
        vstd::arithmetic::div_mod::lemma_fundamental_div_mod_converse(
            session.turn_count as int,
            n,
            k as int,
            r as int,
        );
    }
}

/// The response to a tool call lets the response go on, at once: it is the content that the turn
/// would have had without the call. A second response to it is ignored.
pub proof fn law_tool_response_goes_on(session: SessionModel, message: ClientMessage, uuid: Seq<
    char,
>)
    requires
        session.wf(),
        session.pending == (PendingModel::Delay { signals: session_model::no_signals() }),
        session.tool_call_due(),
        !session.awaiting_tool_response,
        message.setup is None,
        message.client_content is None,
        message.realtime_input is None,
        message.tool_response is Some,
    ensures
        ({
            let called = session.on_delay_over(false, uuid).session;
            let plain = SessionModel { tool_calls: None, ..session };
            let expected = plain.on_delay_over(false, uuid);
            let answered = called.on_message(message);
            &&& answered.actions == expected.actions
            &&& answered.session == SessionModel {
                tool_calls: session.tool_calls,
                ..expected.session
            }
            &&& answered.session.idle().on_message(message) == answered.session.idle().ignore()
        }),
{
}

/// An awaited tool response lets the response go on, at once: where there is audio to say, it is
/// resampled first; else the turn is closed and over. The session awaits no tool response any
/// more.
pub proof fn law_awaited_tool_response(session: SessionModel)
    requires
        session.wf(),
        session.pending is Nothing,
        session.awaiting_tool_response,
    ensures
        ({
            let out = session.on_tool_response();
            &&& !out.session.awaiting_tool_response
            &&& if session.has_audio_modality && session.audio_buffer.len() > 0 {
                &&& out.actions == Seq::<ActionModel>::empty()
                &&& out.session == SessionModel {
                    awaiting_tool_response: false,
                    pending: PendingModel::Resampling {
                        signals: Signals {
                            activity_start: false,
                            activity_end: false,
                            audio_stream_end: false,
                        },
                    },
                    ..session
                }
                &&& out.session.next() == NextModel::Resample(
                    mock_response::chunks(session.audio_buffer),
                )
            } else {
                &&& out.actions == session_model::closing_messages(session.turn_count)
                &&& turn_is_over(session, out.session)
            }
        }),
{
    assert(Seq::<ActionModel>::empty() + session_model::closing_messages(session.turn_count)
        =~= session_model::closing_messages(session.turn_count));
}

/// A tool response that nobody waits for is ignored.
pub proof fn law_unasked_tool_response_is_ignored(session: SessionModel, message: ClientMessage)
    requires
        session.wf(),
        !session.awaiting_tool_response,
        message.setup is None,
        message.client_content is None,
        message.realtime_input is None,
    ensures
        session.on_message(message) == session.ignore(),
{
}

// ---------------------------------------------------------------------------------------------
// Speech
// ---------------------------------------------------------------------------------------------

/// Speech during a response interrupts it: the client is told so, then told that speech has
/// started; the session listens, keeps only the frame that speech started with, and does not wait
/// for a tool response any more. Then the signals that came with the frame are looked at, if there
/// are any.
pub proof fn law_barge_in(
    session: SessionModel,
    samples: Seq<i16>,
    signals: Signals,
    energy: u32,
)
    requires
        session.wf(),
        session.state == SessionState::Responding,
        session.pending == (PendingModel::Energy { samples, signals }),
        session.vad.state == VadState::Silence,
        session.vad.is_speech(energy),
    ensures
        ({
            let out = session.on_energy(energy);
            let listening = SessionModel {
                state: SessionState::ReceivingAudio,
                awaiting_tool_response: false,
                audio_buffer: samples,
                vad: session.vad.after(true),
                pending: PendingModel::Nothing,
                ..session
            };
            &&& out.actions == seq![
                ActionModel::Send(mock_response::interrupted_message()),
                ActionModel::Send(
                    MessageModel::VoiceActivity(VoiceActivityType::VoiceActivityStart),
                ),
            ]
            &&& out.session == listening.after_signals(signals)
            &&& signals == session_model::no_signals() ==> out.session == listening
        }),
{
}

/// Only speech during a response interrupts: the interrupted signal is sent in no other case.
pub proof fn law_interrupted_means_barge_in(session: SessionModel, input: Input, i: int)
    requires
        session.wf(),
        takes(session, input),
        0 <= i < outcome(session, input).actions.len(),
        outcome(session, input).actions[i] == ActionModel::Send(
            mock_response::interrupted_message(),
        ),
    ensures
        session.state == SessionState::Responding,
        input matches Input::Energy(energy) && session.vad.event(session.vad.is_speech(energy))
            == Some(VadEvent::SpeechStart),
{
    let closing = session_model::closing_messages(session.turn_count);
    assert(closing[0] != ActionModel::Send(mock_response::interrupted_message()));
    assert(closing[1] != ActionModel::Send(mock_response::interrupted_message()));
    assert(closing[2] != ActionModel::Send(mock_response::interrupted_message()));
}

/// Voice activity is reported to the client exactly when the detector reports it.
pub proof fn law_voice_activity_follows_detector(session: SessionModel, energy: u32)
    requires
        session.wf(),
        session.pending is Energy,
    ensures
        ({
            let event = session.vad.event(session.vad.is_speech(energy));
            let actions = session.on_energy(energy).actions;
            match event {
                None => actions.len() == 0,
                Some(VadEvent::SpeechStart) => actions.last() == ActionModel::Send(
                    MessageModel::VoiceActivity(VoiceActivityType::VoiceActivityStart),
                ),
                Some(VadEvent::SpeechEnd) => actions == seq![
                    ActionModel::Send(
                        MessageModel::VoiceActivity(VoiceActivityType::VoiceActivityEnd),
                    ),
                ],
            }
        }),
{
}

/// A frame of audio, and its energy.
pub struct Frame {
    pub samples: Seq<i16>,
    pub energy: u32,
}

/// The samples of some frames, one after the other.
pub open spec fn all_samples(frames: Seq<Frame>) -> Seq<i16>
    decreases frames.len(),
{
    if frames.len() == 0 {
        Seq::empty()
    } else {
        all_samples(frames.drop_last()) + frames.last().samples
    }
}

/// What of some frames is speech.
pub open spec fn speech(vad: VadModel, frames: Seq<Frame>) -> Seq<bool> {
    Seq::new(frames.len(), |i: int| vad.is_speech(frames[i].energy))
}

/// The session after a frame that comes without signals, and after its energy.
pub open spec fn hear(session: SessionModel, frame: Frame) -> Outcome {
    let first = session.on_audio(frame.samples, session_model::no_signals());
    let second = first.session.on_energy(frame.energy);
    Outcome { session: second.session, actions: first.actions + second.actions }
}

/// The session after some frames.
pub open spec fn hear_all(session: SessionModel, frames: Seq<Frame>) -> SessionModel
    decreases frames.len(),
{
    if frames.len() == 0 {
        session
    } else {
        hear(hear_all(session, frames.drop_last()), frames.last()).session
    }
}

/// Whether no frame brings about an event, and none is empty.
pub open spec fn uneventful(vad: VadModel, frames: Seq<Frame>) -> bool {
    &&& forall|i: int| 0 <= i < frames.len() ==> (#[trigger] frames[i]).samples.len() > 0
    &&& forall|i: int|
        0 <= i < frames.len() ==> vad.run(#[trigger] speech(vad, frames).take(i)).event(
            speech(vad, frames)[i],
        ) is None
}

/// While nothing starts or ends, a listening session buffers all that it hears, in order, and
/// does nothing else.
pub proof fn law_frames_are_buffered(session: SessionModel, frames: Seq<Frame>)
    requires
        session.wf(),
        session.state == SessionState::ReceivingAudio,
        session.pending is Nothing,
        uneventful(session.vad, frames),
    ensures
        hear_all(session, frames) == (SessionModel {
            vad: session.vad.run(speech(session.vad, frames)),
            audio_buffer: session.audio_buffer + all_samples(frames),
            ..session
        }),
    decreases frames.len(),
{
    let flags = speech(session.vad, frames);
    if frames.len() == 0 {
        assert(session.audio_buffer + all_samples(frames) =~= session.audio_buffer);
        assert(hear_all(session, frames) == session);
    } else {
        let n: int = frames.len() - 1;
        let before = frames.drop_last();
        assert(flags.drop_last() =~= speech(session.vad, before));
        assert forall|i: int| 0 <= i < before.len() implies session.vad.run(
            #[trigger] speech(session.vad, before).take(i),
        ).event(speech(session.vad, before)[i]) is None by {
            assert(speech(session.vad, before).take(i) =~= flags.take(i));
        }
        assert forall|i: int| 0 <= i < before.len() implies (
        #[trigger] before[i]).samples.len() > 0 by {
            assert(before[i] == frames[i]);
        }
        law_frames_are_buffered(session, before);
        crate::vad::law_run_keeps_wf(session.vad, flags.drop_last());
        assert(flags.take(n) =~= flags.drop_last());
        assert(frames[n].samples.len() > 0);
        let heard = hear_all(session, before);
        assert(heard.vad.is_speech(frames.last().energy) == flags.last());
        assert(heard.audio_buffer + frames.last().samples =~= session.audio_buffer + all_samples(
            frames,
        ));
    }
}

/// The session after a frame that speech starts with: it listens, keeps that frame alone, whatever
/// it held before, and a response that was under way is given up.
pub open spec fn speech_has_started(session: SessionModel, start: Frame) -> SessionModel {
    SessionModel {
        state: SessionState::ReceivingAudio,
        awaiting_tool_response: session.awaiting_tool_response && session.state
            != SessionState::Responding,
        vad: session.vad.after(true),
        audio_buffer: start.samples,
        ..session
    }
}

/// Where silence was heard so far, a loud frame starts speech, in every session that takes audio:
/// the audio before it is dropped, and the client is told.
pub proof fn law_speech_starts_afresh(session: SessionModel, start: Frame)
    requires
        session.wf(),
        session.takes_realtime_input(),
        session.pending is Nothing,
        session.vad.state == VadState::Silence,
        start.samples.len() > 0,
        session.vad.is_speech(start.energy),
    ensures
        hear(session, start).session == speech_has_started(session, start),
        hear(session, start).session.wf(),
        hear(session, start).actions.last() == ActionModel::Send(
            MessageModel::VoiceActivity(VoiceActivityType::VoiceActivityStart),
        ),
{
    let first = session.on_audio(start.samples, session_model::no_signals());
    assert(first.session.vad == session.vad);
    assert(hear(session, start).session == speech_has_started(session, start));
}

/// A spoken turn is heard as a whole and nothing before it. Whatever a session has heard while
/// there was silence, and also when speech interrupts it: with a frame that speech starts with,
/// frames in which it goes on and a frame that it ends with, the buffer holds exactly these frames
/// when the response begins, and where audio was asked for it is these frames that are resampled
/// for the response.
pub proof fn law_spoken_turn_is_echoed(
    session: SessionModel,
    start: Frame,
    middle: Seq<Frame>,
    end: Frame,
    uuid: Seq<char>,
)
    requires
        session.wf(),
        session.takes_realtime_input(),
        session.pending is Nothing,
        session.vad.state == VadState::Silence,
        start.samples.len() > 0,
        end.samples.len() > 0,
        session.vad.is_speech(start.energy),
        uneventful(session.vad.after(true), middle),
        ({
            let flags = speech(session.vad.after(true), middle);
            session.vad.after(true).run(flags).event(session.vad.is_speech(end.energy)) == Some(
                VadEvent::SpeechEnd,
            )
        }),
    ensures
        ({
            let started = hear(session, start);
            let spoken = start.samples + all_samples(middle) + end.samples;
            let ended = hear(hear_all(started.session, middle), end);
            &&& started.actions.last() == ActionModel::Send(
                MessageModel::VoiceActivity(VoiceActivityType::VoiceActivityStart),
            )
            &&& ended.actions.last() == ActionModel::Send(
                MessageModel::VoiceActivity(VoiceActivityType::VoiceActivityEnd),
            )
            &&& ended.session.state == SessionState::Responding
            &&& ended.session.turn_count == session.turn_count + 1
            &&& ended.session.audio_buffer == spoken
            &&& ended.session.next() == NextModel::Delay(session.response_delay)
            &&& session.has_audio_modality && !ended.session.tool_call_due()
                ==> ended.session.on_delay_over(false, uuid).session.next() == NextModel::Resample(
                mock_response::chunks(spoken),
            )
        }),
{
    law_speech_starts_afresh(session, start);
    let started = hear(session, start);
    law_frames_are_buffered(started.session, middle);
    let heard = hear_all(started.session, middle);
    let flags = speech(session.vad.after(true), middle);
    crate::vad::law_run_keeps_wf(session.vad.after(true), flags);
    let ended = hear(heard, end);
    assert(heard.vad.is_speech(end.energy) == session.vad.is_speech(end.energy));
    assert(ended.session.audio_buffer =~= start.samples + all_samples(middle) + end.samples);
}

/// Whether an input without audio ends the turn of a listening session that holds the given audio:
/// with an activity end, or with the end of the audio stream where there is audio.
pub open spec fn ends_turn(input: RealtimeInput, buffer: Seq<i16>) -> bool {
    &&& input.audio is None
    &&& input.activity_end is Some || (input.audio_stream_end == Some(true) && buffer.len() > 0)
}

/// Whether `responding` is how a session that listened, with the given audio, begins its response:
/// in the next turn and with just that audio, which is resampled for the response where audio was
/// asked for.
pub open spec fn responds_to(
    session: SessionModel,
    responding: SessionModel,
    heard: Seq<i16>,
    uuid: Seq<char>,
) -> bool {
    &&& responding.state == SessionState::Responding
    &&& responding.turn_count == session.turn_count + 1
    &&& responding.audio_buffer == heard
    &&& responding.next() == NextModel::Delay(session.response_delay)
    &&& session.has_audio_modality && heard.len() > 0 && !responding.tool_call_due()
        ==> responding.on_delay_over(false, uuid).session.next() == NextModel::Resample(
        mock_response::chunks(heard),
    )
}

/// A signal that ends the turn of a listening session begins the response to all that the session
/// held and has heard since, whatever the detector makes of it as long as it reports nothing.
pub proof fn law_signal_ends_a_turn(
    session: SessionModel,
    frames: Seq<Frame>,
    closing: RealtimeInput,
    uuid: Seq<char>,
)
    requires
        session.wf(),
        session.pending is Nothing,
        session.state == SessionState::ReceivingAudio,
        uneventful(session.vad, frames),
        ends_turn(closing, session.audio_buffer + all_samples(frames)),
    ensures
        ({
            let heard = hear_all(session, frames);
            let responding = heard.on_realtime_input(closing);
            &&& responding.actions == Seq::<ActionModel>::empty()
            &&& responds_to(
                session,
                responding.session,
                session.audio_buffer + all_samples(frames),
                uuid,
            )
        }),
{
    law_frames_are_buffered(session, frames);
}

/// The client may mark a turn itself: after an activity start signal, the session listens, and a
/// signal that ends the turn begins the response to what it held and has heard in between.
pub proof fn law_signals_mark_a_turn(
    session: SessionModel,
    opening: RealtimeInput,
    frames: Seq<Frame>,
    closing: RealtimeInput,
    uuid: Seq<char>,
)
    requires
        session.wf(),
        session.pending is Nothing,
        session.takes_realtime_input(),
        opening.audio is None,
        opening.activity_start is Some,
        opening.activity_end is None,
        opening.audio_stream_end != Some(true),
        uneventful(session.vad, frames),
        ends_turn(closing, session.audio_buffer + all_samples(frames)),
    ensures
        ({
            let listening = session.on_realtime_input(opening).session;
            let responding = hear_all(listening, frames).on_realtime_input(closing).session;
            &&& listening == SessionModel { state: SessionState::ReceivingAudio, ..session }
            &&& responds_to(
                session,
                responding,
                session.audio_buffer + all_samples(frames),
                uuid,
            )
        }),
{
    law_signal_ends_a_turn(session.on_realtime_input(opening).session, frames, closing, uuid);
}

/// Speech that the client ends with a signal is echoed from its start: the response is to the
/// frame that speech started with and the frames since, and to nothing before it.
pub proof fn law_signal_ends_speech(
    session: SessionModel,
    start: Frame,
    frames: Seq<Frame>,
    closing: RealtimeInput,
    uuid: Seq<char>,
)
    requires
        session.wf(),
        session.takes_realtime_input(),
        session.pending is Nothing,
        session.vad.state == VadState::Silence,
        start.samples.len() > 0,
        session.vad.is_speech(start.energy),
        uneventful(session.vad.after(true), frames),
        ends_turn(closing, start.samples + all_samples(frames)),
    ensures
        ({
            let started = hear(session, start).session;
            let responding = hear_all(started, frames).on_realtime_input(closing).session;
            responds_to(session, responding, start.samples + all_samples(frames), uuid)
        }),
{
    law_speech_starts_afresh(session, start);
    law_signal_ends_a_turn(hear(session, start).session, frames, closing, uuid);
}

/// Signals that end what has not begun are ignored: an activity end while the session does not
/// listen, and the end of the audio stream while it does not listen or has heard nothing.
pub proof fn law_stray_signals_are_ignored(session: SessionModel, input: RealtimeInput)
    requires
        session.wf(),
        session.pending is Nothing,
        input.audio is None,
        input.activity_start is None,
        session.state == SessionState::ReceivingAudio ==> !ends_turn(input, session.audio_buffer),
    ensures
        session.on_realtime_input(input) == session.ignore(),
{
}

/// Audio that is not valid base64, or holds no sample, leaves no trace.
pub proof fn law_unreadable_audio_is_ignored(session: SessionModel, input: RealtimeInput)
    requires
        session.wf(),
        session.pending is Nothing,
        input.audio is Some,
        session_model::signals_of(input) == session_model::no_signals(),
    ensures
        session_model::frame_samples(input.audio->0.data@).len() == 0
            ==> session.on_realtime_input(input) == session.ignore(),
        codec::base64_data(input.audio->0.data@) is None ==> session.on_realtime_input(input)
            == session.ignore(),
{
}

/// Audio is heard as it was sent: a frame whose base64 text stands for the bytes of some samples
/// is heard as these samples.
pub proof fn law_audio_is_heard_as_sent(data: Seq<char>, samples: Seq<i16>)
    ensures
        codec::base64_data(data) == Some(pcm::bytes(samples)) ==> session_model::frame_samples(data)
            == samples,
{
    pcm::law_samples_read_back(samples);
}

// ---------------------------------------------------------------------------------------------
// What each input comes to
// ---------------------------------------------------------------------------------------------

/// A setup that lists modalities asks for audio if and only if one of them, at whatever place,
/// spells the word in letters of either case; one that lists none asks for nothing. The setup
/// changes nothing else about the session but that it is ready.
pub proof fn law_any_modality_counts(session: SessionModel, setup: Setup)
    requires
        session.wf(),
        session.state == SessionState::AwaitingSetup,
    ensures
        ({
            let later = session.on_setup(setup).session;
            let listed = listed_modalities(setup);
            &&& later.has_audio_modality <==> exists|i: int|
                0 <= i < listed.len() && spells_audio(#[trigger] listed[i]@)
            &&& later == SessionModel {
                state: SessionState::Ready,
                has_audio_modality: later.has_audio_modality,
                ..session
            }
        }),
{
    let listed = listed_modalities(setup);
    let later = session.on_setup(setup).session;
    assert forall|i: int| 0 <= i < listed.len() implies spells_audio(#[trigger] listed[i]@)
        == text::same_ignoring_ascii_case(listed[i]@, "audio"@) by {
        lemma_spells_audio(listed[i]@);
    }
    if later.has_audio_modality {
        assert(session_model::names_audio(listed));
        let i = choose|i: int|
            0 <= i < listed.len() && text::same_ignoring_ascii_case(
                #[trigger] listed[i]@,
                "audio"@,
            );
        assert(spells_audio(listed[i]@));
    } else {
        assert(!session_model::names_audio(listed));
        assert forall|i: int| 0 <= i < listed.len() implies !spells_audio(
            #[trigger] listed[i]@,
        ) by {
            assert(!text::same_ignoring_ascii_case(listed[i]@, "audio"@));
        }
    }
}

/// The modalities that a setup lists, in order: none if it has no list.
pub open spec fn listed_modalities(setup: Setup) -> Seq<String> {
    if setup.generation_config is Some && setup.generation_config->0.response_modalities is Some {
        setup.generation_config->0.response_modalities->0@
    } else {
        Seq::empty()
    }
}

/// Whether a text is the word audio, in letters of either case.
pub open spec fn spells_audio(text: Seq<char>) -> bool {
    &&& text.len() == 5
    &&& text[0] == 'a' || text[0] == 'A'
    &&& text[1] == 'u' || text[1] == 'U'
    &&& text[2] == 'd' || text[2] == 'D'
    &&& text[3] == 'i' || text[3] == 'I'
    &&& text[4] == 'o' || text[4] == 'O'
}

proof fn lemma_spells_audio(text: Seq<char>)
    ensures
        spells_audio(text) == text::same_ignoring_ascii_case(text, "audio"@),
{
    reveal_strlit("audio");
    let word = "audio"@;
    text::law_same_but_for_case(text, word);
    if text::same_ignoring_ascii_case(text, word) {
        assert(text[0] == word[0] || 'A' <= text[0]);
        assert(text[1] == word[1] || 'A' <= text[1]);
        assert(text[2] == word[2] || 'A' <= text[2]);
        assert(text[3] == word[3] || 'A' <= text[3]);
        assert(text[4] == word[4] || 'A' <= text[4]);
    }
}

/// A complete turn of content, sent to a session that is ready, begins a turn, whatever the turn;
/// nothing else changes, and nothing is said yet.
pub proof fn law_content_begins_a_turn(session: SessionModel, content: ClientContent)
    requires
        session.state == SessionState::Ready,
        content.turn_complete,
    ensures
        session.on_client_content(content).actions.len() == 0,
        session.on_client_content(content).session == (SessionModel {
            state: SessionState::Responding,
            turn_count: session.turn_count + 1,
            pending: PendingModel::Delay {
                signals: Signals {
                    activity_start: false,
                    activity_end: false,
                    audio_stream_end: false,
                },
            },
            ..session
        }),
{
}

/// A realtime input is taken in every state but before setup, as its samples and its signals: the
/// two activities are signalled by being there, the end of the stream by being true.
pub proof fn law_realtime_input_is_audio_and_signals(session: SessionModel, input: RealtimeInput)
    requires
        session.wf(),
        session.pending is Nothing,
    ensures
        ({
            let out = session.on_realtime_input(input);
            let signals = Signals {
                activity_start: input.activity_start is Some,
                activity_end: input.activity_end is Some,
                audio_stream_end: input.audio_stream_end is Some && input.audio_stream_end->0,
            };
            let samples = if input.audio is Some {
                match codec::base64_data(input.audio->0.data@) {
                    Some(bytes) => pcm::samples(bytes),
                    None => Seq::<i16>::empty(),
                }
            } else {
                Seq::<i16>::empty()
            };
            if session.state == SessionState::AwaitingSetup {
                &&& out.actions.len() == 0
                &&& out.session == session
            } else {
                out == session.on_audio(samples, signals)
            }
        }),
{
}

/// A frame of audio is put at the end of the buffer, as it is; a session that was ready listens;
/// and the caller is asked for the energy of just that frame. Without samples only the signals
/// count.
pub proof fn law_frame_is_taken(session: SessionModel, samples: Seq<i16>, signals: Signals)
    ensures
        ({
            let out = session.on_audio(samples, signals);
            if samples.len() > 0 {
                &&& out.session == SessionModel {
                    state: if session.state == SessionState::Ready {
                        SessionState::ReceivingAudio
                    } else {
                        session.state
                    },
                    audio_buffer: session.audio_buffer + samples,
                    pending: PendingModel::Energy { samples, signals },
                    ..session
                }
                &&& out.session.next() == NextModel::MeasureEnergy(samples)
                &&& out.actions.len() == if session.logger is Some {
                    1nat
                } else {
                    0nat
                }
                &&& session.logger is Some ==> out.actions[0] == ActionModel::LogInput(samples)
            } else {
                &&& out.session == session.after_signals(signals)
                &&& out.actions.len() == 0
            }
        }),
{
}

/// What signals do, once everything before them is done. The start of an activity makes the
/// session listen. If it listens, the end of the activity begins a turn, and the end of the stream
/// is then kept for after it; and so does the end of the stream itself, if there is audio.
/// Nothing else changes.
pub proof fn law_signals_by_cases(session: SessionModel, signals: Signals)
    ensures
        ({
            let later = session.after_signals(signals);
            let listens = signals.activity_start || session.state == SessionState::ReceivingAudio;
            let begun = SessionModel {
                state: SessionState::Responding,
                turn_count: session.turn_count + 1,
                pending: later.pending,
                ..session
            };
            if listens && signals.activity_end {
                &&& later == begun
                &&& later.pending == PendingModel::Delay {
                    signals: Signals {
                        activity_start: false,
                        activity_end: false,
                        audio_stream_end: signals.audio_stream_end,
                    },
                }
            } else if listens && signals.audio_stream_end && session.audio_buffer.len() > 0 {
                &&& later == begun
                &&& later.pending == PendingModel::Delay {
                    signals: Signals {
                        activity_start: false,
                        activity_end: false,
                        audio_stream_end: false,
                    },
                }
            } else {
                later == SessionModel {
                    state: if listens {
                        SessionState::ReceivingAudio
                    } else {
                        session.state
                    },
                    pending: PendingModel::Nothing,
                    ..session
                }
            }
        }),
{
}

/// What the energy of a frame does, by what the detector makes of it. In every case the detector
/// has heard the frame. Without an event, nothing is said and the signals are looked at. The end
/// of speech is reported and begins a turn, with all the audio, and the signals are kept for after
/// it. The start of speech is reported, after an interrupted signal if a response was under way,
/// and only the frame is kept; then the signals are looked at.
pub proof fn law_energy_by_cases(
    session: SessionModel,
    samples: Seq<i16>,
    signals: Signals,
    energy: u32,
)
    requires
        session.wf(),
        session.pending == (PendingModel::Energy { samples, signals }),
    ensures
        ({
            let out = session.on_energy(energy);
            let is_speech = energy::greater(energy, session.vad.energy_threshold);
            let heard = SessionModel { vad: session.vad.after(is_speech), ..session };
            let interrupts = session.state == SessionState::Responding;
            match session.vad.event(is_speech) {
                None => {
                    &&& out.actions.len() == 0
                    &&& out.session == heard.after_signals(signals)
                },
                Some(VadEvent::SpeechEnd) => {
                    &&& out.actions.len() == 1
                    &&& out.actions[0] == ActionModel::Send(
                        MessageModel::VoiceActivity(VoiceActivityType::VoiceActivityEnd),
                    )
                    &&& out.session == SessionModel {
                        state: SessionState::Responding,
                        turn_count: session.turn_count + 1,
                        pending: PendingModel::Delay { signals },
                        ..heard
                    }
                },
                Some(VadEvent::SpeechStart) => {
                    &&& out.actions.len() == if interrupts {
                        2nat
                    } else {
                        1nat
                    }
                    &&& interrupts ==> out.actions[0] == ActionModel::Send(
                        mock_response::interrupted_message(),
                    )
                    &&& out.actions.last() == ActionModel::Send(
                        MessageModel::VoiceActivity(VoiceActivityType::VoiceActivityStart),
                    )
                    &&& out.session == SessionModel {
                        state: if interrupts {
                            SessionState::ReceivingAudio
                        } else {
                            session.state
                        },
                        awaiting_tool_response: session.awaiting_tool_response && !interrupts,
                        audio_buffer: samples,
                        ..heard
                    }.after_signals(signals)
                },
            }
        }),
{
}

/// Three messages close a turn, whatever the turn: its text, the turn complete signal and the
/// usage.
pub proof fn law_closing_messages(turn: nat)
    ensures
        ({
            let closing = session_model::closing_messages(turn);
            &&& closing.len() == 3
            &&& closing[0] == ActionModel::Send(mock_response::text_message(turn))
            &&& closing[1] == ActionModel::Send(mock_response::turn_complete_message())
            &&& closing[2] == ActionModel::Send(mock_response::usage_message())
        }),
{
}

/// The audio of a response is sent in one message, after it has been logged where there are logs;
/// both have all its samples.
pub proof fn law_audio_is_logged_and_sent(session: SessionModel, samples: Seq<i16>)
    ensures
        ({
            let actions = session.audio_actions(samples);
            &&& actions.len() == if session.logger is Some {
                2nat
            } else {
                1nat
            }
            &&& actions.last() == ActionModel::Send(mock_response::audio_message(samples))
            &&& session.logger is Some ==> actions[0] == ActionModel::LogOutput(samples)
        }),
{
}

/// The identifier of a tool call tells apart what it was made of, and is marked as that of a call.
pub proof fn law_call_id(uuid: Seq<char>)
    ensures
        session_model::call_id(uuid).take(5) == "call_"@,
        session_model::call_id(uuid).skip(5) == uuid,
{
    reveal_strlit("call_");
    assert(session_model::call_id(uuid).take(5) =~= "call_"@);
    assert(session_model::call_id(uuid).skip(5) =~= uuid);
}

/// What the caller is asked for is what the session waits for: the energy of the frame, the
/// configured delay, or the whole buffer at the new rate; to be called again for signals; and
/// otherwise nothing. Signals are kept for later if and only if one of them is set.
pub proof fn law_what_is_asked_for(session: SessionModel, signals: Signals)
    ensures
        match session.pending {
            PendingModel::Nothing => session.next() is Done,
            PendingModel::Energy { samples, .. } => session.next() == NextModel::MeasureEnergy(
                samples,
            ),
            PendingModel::Delay { .. } => session.next() == NextModel::Delay(
                session.response_delay,
            ),
            PendingModel::Resampling { .. } => session.next() == NextModel::Resample(
                mock_response::chunks(session.audio_buffer),
            ),
            PendingModel::Signals { .. } => session.next() is Continue,
        },
        signals.activity_start || signals.activity_end || signals.audio_stream_end
            ==> session_model::kept(signals) == (PendingModel::Signals { signals }),
        !signals.activity_start && !signals.activity_end && !signals.audio_stream_end
            ==> session_model::kept(signals) is Nothing,
{
}

/// What is answered is seen whole and in order.
pub proof fn law_steps_are_seen_whole(actions: Seq<Action>, next: Next, i: int)
    ensures
        crate::session::actions_view(actions).len() == actions.len(),
        0 <= i < actions.len() ==> crate::session::actions_view(actions)[i] == match actions[i] {
            Action::Send(message) => ActionModel::Send(message@),
            Action::LogInput(samples) => ActionModel::LogInput(samples@),
            Action::LogOutput(samples) => ActionModel::LogOutput(samples@),
        },
        next@ == match next {
            Next::Done => NextModel::Done,
            Next::MeasureEnergy(samples) => NextModel::MeasureEnergy(samples@),
            Next::Delay(ms) => NextModel::Delay(ms),
            Next::Resample(chunks) => NextModel::Resample(mock_response::chunks_view(chunks@)),
            Next::Continue => NextModel::Continue,
        },
{
}

// ---------------------------------------------------------------------------------------------
// Configuration
// ---------------------------------------------------------------------------------------------

/// A session that was made from a configuration and has been set up.
pub open spec fn configured(
    id: Seq<char>,
    config: ServerConfig,
    token: CancellationToken,
    setup: Setup,
) -> SessionModel {
    crate::session::new_session(id, config, token).on_setup(setup).session
}

/// A new session waits for its setup, has its own identifier and token, and nothing has happened
/// to it yet; it is well formed, and after its setup it is ready.
pub proof fn law_new_session(
    id: Seq<char>,
    config: ServerConfig,
    token: CancellationToken,
    setup: Setup,
)
    ensures
        ({
            let session = crate::session::new_session(id, config, token);
            &&& session.wf()
            &&& session.id == id
            &&& session.token == token
            &&& session.state == SessionState::AwaitingSetup
            &&& session.turn_count == 0
            &&& session.audio_buffer.len() == 0
            &&& !session.has_audio_modality
            &&& !session.awaiting_tool_response
            &&& session.pending is Nothing
        }),
        configured(id, config, token, setup).wf(),
        configured(id, config, token, setup).state == SessionState::Ready,
{
}

/// The configured energy threshold decides what is speech: the first frame that a session hears
/// starts speech if and only if its energy is greater than that threshold. If it is not, nothing is
/// said and no turn begins.
pub proof fn law_configured_threshold(
    id: Seq<char>,
    config: ServerConfig,
    token: CancellationToken,
    setup: Setup,
    frame: Frame,
)
    requires
        frame.samples.len() > 0,
    ensures
        ({
            let out = hear(configured(id, config, token, setup), frame);
            let started = ActionModel::Send(
                MessageModel::VoiceActivity(VoiceActivityType::VoiceActivityStart),
            );
            let is_speech = energy::greater(
                frame.energy,
                config.vad_energy_threshold.spec_bits(),
            );
            &&& is_speech ==> out.actions.last() == started && out.session.vad.state
                == VadState::Speech
            &&& !is_speech ==> (forall|i: int|
                0 <= i < out.actions.len() ==> (#[trigger] out.actions[i]) is LogInput)
                && out.session.vad.state == VadState::Silence
            &&& out.session.turn_count == 0
        }),
{
    let session = configured(id, config, token, setup);
    let first = session.on_audio(frame.samples, session_model::no_signals());
    assert(first.session.vad == session.vad);
}

/// The configured number of silent frames ends a turn: after a loud frame, a session that was made
/// from a configuration listens through fewer silent frames than that, and responds with the last
/// of them. A number of zero counts as one.
pub proof fn law_configured_silence(
    id: Seq<char>,
    config: ServerConfig,
    token: CancellationToken,
    setup: Setup,
    start: Frame,
    silent: Seq<Frame>,
)
    requires
        start.samples.len() > 0,
        energy::greater(start.energy, config.vad_energy_threshold.spec_bits()),
        forall|i: int|
            0 <= i < silent.len() ==> (#[trigger] silent[i]).samples.len() > 0
                && !energy::greater(silent[i].energy, config.vad_energy_threshold.spec_bits()),
        silent.len() > 0,
        silent.len() <= config.vad_silence_frames || silent.len() == 1,
    ensures
        ({
            let session = configured(id, config, token, setup);
            let later = hear_all(hear(session, start).session, silent);
            if silent.len() >= config.vad_silence_frames {
                &&& later.state == SessionState::Responding
                &&& later.turn_count == 1
                &&& later.next() == NextModel::Delay(config.response_delay)
                &&& later.audio_buffer == start.samples + all_samples(silent)
            } else {
                &&& later.state == SessionState::ReceivingAudio
                &&& later.turn_count == 0
                &&& later.next() is Done
                &&& later.audio_buffer == start.samples + all_samples(silent)
            }
        }),
{
    let session = configured(id, config, token, setup);
    let vad = session.vad;
    law_speech_starts_afresh(session, start);
    let started = hear(session, start).session;
    let middle = silent.drop_last();
    let flags = speech(started.vad, silent);
    assert(speech(started.vad, middle) =~= flags.drop_last());
    assert forall|i: int| 0 <= i < middle.len() implies started.vad.run(
        #[trigger] speech(started.vad, middle).take(i),
    ).event(speech(started.vad, middle)[i]) is None by {
        let some = flags.take(i + 1);
        assert(some.drop_last() =~= speech(started.vad, middle).take(i));
        assert(silent[i].samples.len() > 0);
        assert forall|j: int| 0 <= j < some.len() implies !#[trigger] some[j] by {
            assert(silent[j].samples.len() > 0);
        }
        crate::vad::law_speech_ends_after_silence(vad, some);
    }
    assert forall|i: int| 0 <= i < middle.len() implies (
    #[trigger] middle[i]).samples.len() > 0 by {
        assert(middle[i] == silent[i]);
    }
    law_frames_are_buffered(started, middle);
    crate::vad::law_run_keeps_wf(started.vad, flags.drop_last());
    assert forall|j: int| 0 <= j < flags.len() implies !#[trigger] flags[j] by {
        assert(silent[j].samples.len() > 0);
    }
    crate::vad::law_speech_ends_after_silence(vad, flags);
    let heard = hear_all(started, middle);
    let end = silent.last();
    assert(end == silent[silent.len() - 1]);
    assert(heard.vad.is_speech(end.energy) == flags.last());
    assert(heard.audio_buffer + end.samples =~= start.samples + all_samples(silent));
}

/// The configured delay and the configured interval hold for every turn of a session: whatever it
/// goes through, it waits for that delay before each response, and the response to a turn is a
/// tool call if and only if the interval is not zero and divides the number of the turn.
pub proof fn law_configured_responses(
    id: Seq<char>,
    config: ServerConfig,
    token: CancellationToken,
    inputs: Seq<Input>,
)
    requires
        takes_all(crate::session::new_session(id, config, token), inputs),
        run(crate::session::new_session(id, config, token), inputs).session.pending is Delay,
    ensures
        ({
            let due = run(crate::session::new_session(id, config, token), inputs).session;
            &&& due.next() == NextModel::Delay(config.response_delay)
            &&& due.turn_count == responses(inputs) + 1
            &&& due.tool_call_due() <==> (config.tool_call_interval matches Some(interval)
                && interval > 0 && (responses(inputs) + 1) % (interval as nat) == 0)
        }),
{
    let session = crate::session::new_session(id, config, token);
    law_nth_response(session, inputs);
    law_settings_are_kept(session, inputs);
}

/// Whatever a session goes through, its identifier, its settings, its logs and its token stay.
pub proof fn law_settings_are_kept(session: SessionModel, inputs: Seq<Input>)
    ensures
        ({
            let later = run(session, inputs).session;
            &&& later.id == session.id
            &&& later.response_delay == session.response_delay
            &&& later.tool_calls == session.tool_calls
            &&& later.logger == session.logger
            &&& later.token == session.token
            &&& later.vad.energy_threshold == session.vad.energy_threshold
            &&& later.vad.silence_frames_threshold == session.vad.silence_frames_threshold
        }),
    decreases inputs.len(),
{
    if inputs.len() > 0 {
        law_settings_are_kept(session, inputs.drop_last());
        law_identity_is_kept(run(session, inputs.drop_last()).session, inputs.last());
    }
}

/// There are logs if and only if a directory for them is configured: they lie there, are named
/// after the session, and none has been created yet.
pub proof fn law_configured_logs(id: Seq<char>, config: ServerConfig, token: CancellationToken)
    ensures
        ({
            let session = crate::session::new_session(id, config, token);
            &&& session.logger is Some <==> config.audio_output_dir is Some
            &&& config.audio_output_dir is Some ==> {
                &&& session.logger->0.output_dir == config.audio_output_dir->0@
                &&& session.logger->0.session_id == id
                &&& forall|track: Track| !(#[trigger] session.logger->0.open.contains(track))
            }
        }),
{
}

} // verus!
