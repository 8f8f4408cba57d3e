//! One WebSocket connection, and the control that test code has over it.
//!
//! The connection loop waits for three things at once: cancellation, a frame from the client and
//! an event from the session.  For each thing that happens, the functions here say what is to be
//! done about it, in order.

use crate::cancel;
use crate::codec;
use crate::session::SessionEvent;
use tokio_util::sync::CancellationToken;
use vstd::prelude::*;

verus! {

/// How a session's connection should be torn down when triggered via [`ServerControl`].
#[derive(Debug, Clone)]
pub enum CloseMode {
    /// Send a WebSocket close frame with the given code and reason.
    Frame { code: u16, reason: String },
    /// Send a well-formed close handshake with no payload at all.
    EmptyFrame,
    /// Drop the connection without performing a WebSocket close handshake.
    Abrupt,
}

/// Something that happens on a connection.
#[derive(Debug)]
pub enum ConnectionEvent {
    /// The connection's token has been cancelled.
    Cancelled,
    /// The client sent text.
    Text(String),
    /// The client sent bytes.
    Binary(Vec<u8>),
    /// The client sent a close frame.
    Close,
    /// The client sent a ping.
    Ping(Vec<u8>),
    /// The client sent a pong.
    Pong,
    /// Reading from the connection failed.
    ReadFailed,
    /// The connection is closed.
    Ended,
    /// The session has an event.
    Session(SessionEvent),
    /// The session will have no more events.
    SessionEnded,
    /// A text frame could not be sent.
    WriteFailed,
}

/// Something that is to be done about it.
#[derive(Debug)]
pub enum ConnectionAction {
    /// Keep the raw text of a client message for test code to see.
    Record(String),
    /// Parse the text and pass the message to the session. Text that is no message is dropped.
    Deliver(String),
    /// Send a text frame.
    SendText(String),
    /// Send a pong. A failure is of no consequence.
    SendPong(Vec<u8>),
    /// Send a close frame with a code and a reason. A failure is of no consequence.
    SendClose { code: u16, reason: String },
    /// Send a close frame without payload. A failure is of no consequence.
    SendEmptyClose,
    /// Close the connection. A failure is of no consequence.
    CloseConnection,
    /// Cancel the connection's token.
    Cancel,
    /// Leave the loop and finalize the session.
    Stop,
}

/// What is to be done, as contracts speak of it.
#[verifier::ext_equal]
pub enum ConnectionActionModel {
    Record(Seq<char>),
    Deliver(Seq<char>),
    SendText(Seq<char>),
    SendPong(Seq<u8>),
    SendClose { code: u16, reason: Seq<char> },
    SendEmptyClose,
    CloseConnection,
    Cancel,
    Stop,
}

impl View for ConnectionAction {
    type V = ConnectionActionModel;

    open spec fn view(&self) -> ConnectionActionModel {
        match self {
            ConnectionAction::Record(t) => ConnectionActionModel::Record(t@),
            ConnectionAction::Deliver(t) => ConnectionActionModel::Deliver(t@),
            ConnectionAction::SendText(t) => ConnectionActionModel::SendText(t@),
            ConnectionAction::SendPong(d) => ConnectionActionModel::SendPong(d@),
            ConnectionAction::SendClose { code, reason } => ConnectionActionModel::SendClose {
                code: *code,
                reason: reason@,
            },
            ConnectionAction::SendEmptyClose => ConnectionActionModel::SendEmptyClose,
            ConnectionAction::CloseConnection => ConnectionActionModel::CloseConnection,
            ConnectionAction::Cancel => ConnectionActionModel::Cancel,
            ConnectionAction::Stop => ConnectionActionModel::Stop,
        }
    }
}

/// Actions as contracts speak of them.
pub open spec fn actions_view(actions: Seq<ConnectionAction>) -> Seq<ConnectionActionModel> {
    Seq::new(actions.len(), |i: int| actions[i]@)
}

/// How a cancelled connection is closed: as the control says if it was the control that
/// cancelled it, and by closing it in the ordinary way if not.
pub open spec fn closing_actions(triggered: Option<&CloseMode>) -> Seq<ConnectionActionModel> {
    match triggered {
        Some(CloseMode::Frame { code, reason }) => seq![
            ConnectionActionModel::SendClose { code: *code, reason: reason@ },
            ConnectionActionModel::Stop,
        ],
        Some(CloseMode::EmptyFrame) => seq![
            ConnectionActionModel::SendEmptyClose,
            ConnectionActionModel::Stop,
        ],
        Some(CloseMode::Abrupt) => seq![ConnectionActionModel::Stop],
        None => seq![ConnectionActionModel::CloseConnection, ConnectionActionModel::Stop],
    }
}

/// What is done about the text of a client message.
pub open spec fn text_actions(controlled: bool, text: Seq<char>) -> Seq<ConnectionActionModel> {
    if controlled {
        seq![ConnectionActionModel::Record(text), ConnectionActionModel::Deliver(text)]
    } else {
        seq![ConnectionActionModel::Deliver(text)]
    }
}

/// The connection is given up, along with whatever goes on under its token.
pub open spec fn give_up() -> Seq<ConnectionActionModel> {
    seq![ConnectionActionModel::Cancel, ConnectionActionModel::Stop]
}

/// What is done about an event. `mode` is that of the control, if there is one, and `triggered`
/// says whether its close has been triggered.
pub open spec fn event_actions(
    mode: Option<&CloseMode>,
    triggered: bool,
    event: ConnectionEvent,
) -> Seq<ConnectionActionModel> {
    match event {
        ConnectionEvent::Cancelled => closing_actions(
            if triggered {
                mode
            } else {
                None
            },
        ),
        ConnectionEvent::Text(text) => text_actions(mode is Some, text@),
        ConnectionEvent::Binary(data) => if vstd::utf8::valid_utf8(data@) {
            text_actions(mode is Some, vstd::utf8::decode_utf8(data@))
        } else {
            seq![]
        },
        ConnectionEvent::Ping(data) => seq![ConnectionActionModel::SendPong(data@)],
        ConnectionEvent::Pong => seq![],
        ConnectionEvent::Session(SessionEvent::SendMessage(json)) => seq![
            ConnectionActionModel::SendText(json@),
        ],
        ConnectionEvent::Session(SessionEvent::Close) => seq![
            ConnectionActionModel::Cancel,
            ConnectionActionModel::CloseConnection,
            ConnectionActionModel::Stop,
        ],
        ConnectionEvent::Close
        | ConnectionEvent::ReadFailed
        | ConnectionEvent::Ended
        | ConnectionEvent::SessionEnded
        | ConnectionEvent::WriteFailed => give_up(),
    }
}

/// The mode of a control that may be missing.
pub open spec fn mode_of(control: Option<&ServerControl>) -> Option<&CloseMode> {
    match control {
        Some(c) => Some(&c.mode()),
        None => None,
    }
}

/// The texts in a vector of strings.
pub open spec fn texts_view(texts: Seq<String>) -> Seq<Seq<char>> {
    Seq::new(texts.len(), |i: int| texts[i]@)
}

/// The control over the active session of a server: how to close its connection, and what it has
/// received.
pub struct ServerControl {
    token: CancellationToken,
    mode: CloseMode,
    received: Vec<String>,
}

impl ServerControl {
    /// How the connection is closed when that is triggered.
    pub closed spec fn mode(self) -> CloseMode {
        self.mode
    }

    /// The token that triggers the close.
    pub closed spec fn token(self) -> CancellationToken {
        self.token
    }

    /// The raw text of every client message so far, in arrival order.
    pub closed spec fn received(self) -> Seq<Seq<char>> {
        texts_view(self.received@)
    }

    /// A control that has received nothing yet.
    pub fn new(mode: CloseMode) -> (control: ServerControl)
        ensures
            control.mode() == mode,
            control.received() == Seq::<Seq<char>>::empty(),
    {
        let control = ServerControl { token: cancel::new_token(), mode, received: Vec::new() };
        assert(control.received() =~= Seq::<Seq<char>>::empty());
        control
    }

    /// Tear down the active session's connection using the configured [`CloseMode`].
    pub fn trigger_close(&self)
        ensures
            cancel::told(self.token()),
    {
        cancel::tell(&self.token)
    }

    /// Whether the close has been triggered. Other tasks may trigger it at any time.
    pub fn is_triggered(&self) -> (triggered: bool)
        ensures
            cancel::seen(self.token(), triggered),
    {
        cancel::look(&self.token)
    }

    /// The token for a connection under this control: it is cancelled along with the control's
    /// own, but not the other way round.
    pub fn connection_token(&self) -> (token: CancellationToken)
        ensures
            cancel::parent_token(token) == self.token(),
            token != self.token(),
    {
        cancel::child_of(&self.token)
    }

    /// Keep the raw text of a client message.
    pub fn record(&mut self, text: String)
        ensures
            final(self).received() == old(self).received().push(text@),
            final(self).mode() == old(self).mode(),
            final(self).token() == old(self).token(),
    {
        self.received.push(text);
        assert(self.received() =~= old(self).received().push(text@));
    }

    /// Returns the raw text of every client message received by the active session so far, in
    /// arrival order.
    pub fn received_messages(&self) -> (messages: Vec<String>)
        ensures
            texts_view(messages@) == self.received(),
    {
        let mut messages: Vec<String> = Vec::new();
        let mut i: usize = 0;
        while i < self.received.len()
            invariant
                i <= self.received@.len(),
                messages@ == self.received@.take(i as int),
            decreases self.received@.len() - i,
        {
            messages.push(self.received[i].clone());
            i = i + 1;
            assert(messages@ =~= self.received@.take(i as int));
        }
        assert(messages@ =~= self.received@);
        messages
    }
}

/// What to do about an event on a connection. Whether a close has been triggered matters for a
/// cancelled connection alone, and is looked up at that moment.
pub fn handle_event(control: Option<&ServerControl>, event: ConnectionEvent) -> (actions: Vec<
    ConnectionAction,
>)
    ensures
        exists|triggered: bool|
            {
                &&& actions_view(actions@) == #[trigger] event_actions(
                    mode_of(control),
                    triggered,
                    event,
                )
                &&& control matches Some(c) ==> cancel::seen(c.token(), triggered)
            },
{
    match control {
        Some(c) => {
            let triggered = c.is_triggered();
            handle_event_with(Some(&c.mode), triggered, event)
        },
        None => handle_event_with(None, false, event),
    }
}

/// What to do about an event on a connection, given the mode of the control, if there is one, and
/// whether its close has been triggered.
pub fn handle_event_with(
    mode: Option<&CloseMode>,
    triggered: bool,
    event: ConnectionEvent,
) -> (actions: Vec<ConnectionAction>)
    ensures
        actions_view(actions@) == event_actions(mode, triggered, event),
{
    let actions: Vec<ConnectionAction> = match event {
        ConnectionEvent::Cancelled => close(if triggered { mode } else { None }),
        ConnectionEvent::Text(text) => receive(mode.is_some(), text),
        ConnectionEvent::Binary(data) => {
            // Some clients send JSON as binary
            match codec::text_from_utf8(data) {
                Some(text) => receive(mode.is_some(), text),
                None => Vec::new(),
            }
        },
        ConnectionEvent::Ping(data) => vec![ConnectionAction::SendPong(data)],
        ConnectionEvent::Pong => Vec::new(),
        ConnectionEvent::Session(SessionEvent::SendMessage(json)) => vec![
            ConnectionAction::SendText(json),
        ],
        ConnectionEvent::Session(SessionEvent::Close) => vec![
            ConnectionAction::Cancel,
            ConnectionAction::CloseConnection,
            ConnectionAction::Stop,
        ],
        ConnectionEvent::Close
        | ConnectionEvent::ReadFailed
        | ConnectionEvent::Ended
        | ConnectionEvent::SessionEnded
        | ConnectionEvent::WriteFailed => vec![ConnectionAction::Cancel, ConnectionAction::Stop],
    };
    assert(actions_view(actions@) =~= event_actions(mode, triggered, event));
    actions
}

/// Close a cancelled connection.
fn close(triggered: Option<&CloseMode>) -> (actions: Vec<ConnectionAction>)
    ensures
        actions_view(actions@) == closing_actions(triggered),
{
    let actions: Vec<ConnectionAction> = match triggered {
        Some(CloseMode::Frame { code, reason }) => vec![
            ConnectionAction::SendClose { code: *code, reason: reason.clone() },
            ConnectionAction::Stop,
        ],
        Some(CloseMode::EmptyFrame) => vec![
            ConnectionAction::SendEmptyClose,
            ConnectionAction::Stop,
        ],
        // Intentionally no close frame
        Some(CloseMode::Abrupt) => vec![ConnectionAction::Stop],
        None => vec![ConnectionAction::CloseConnection, ConnectionAction::Stop],
    };
    assert(actions_view(actions@) =~= closing_actions(triggered));
    actions
}

/// Deal with the text of a client message.
fn receive(controlled: bool, text: String) -> (actions: Vec<ConnectionAction>)
    ensures
        actions_view(actions@) == text_actions(controlled, text@),
{
    let actions: Vec<ConnectionAction> = if controlled {
        vec![ConnectionAction::Record(text.clone()), ConnectionAction::Deliver(text)]
    } else {
        vec![ConnectionAction::Deliver(text)]
    };
    assert(actions_view(actions@) =~= text_actions(controlled, text@));
    actions
}

/// Why a message could not be sent to the active session's client.
#[derive(Debug)]
pub enum SendMessageError {
    /// The message could not be serialized to JSON, for the reason given.
    Serialize(String),
    /// There is no active session's connection left to deliver the message to (it ended, or its
    /// event channel closed).
    NoActiveSession,
}

impl SendMessageError {
    /// The error in words.
    pub fn to_text(&self) -> (text: String)
        ensures
            text@ == match self {
                SendMessageError::Serialize(e) => "failed to serialize message: "@ + e@,
                SendMessageError::NoActiveSession =>
                    "no active session to deliver the message to"@,
            },
    {
        match self {
            SendMessageError::Serialize(e) => {
                "failed to serialize message: ".to_owned().concat(e.as_str())
            },
            SendMessageError::NoActiveSession => {
                "no active session to deliver the message to".to_owned()
            },
        }
    }
}

// ---------------------------------------------------------------------------------------------
// Laws
// ---------------------------------------------------------------------------------------------

/// The configured close mode is applied to a connection if and only if it was the control that
/// cancelled it: without a trigger, a cancelled connection is closed as if there were no control.
pub proof fn law_mode_needs_a_trigger(mode: &CloseMode)
    ensures
        event_actions(Some(mode), false, ConnectionEvent::Cancelled) == event_actions(
            None,
            false,
            ConnectionEvent::Cancelled,
        ),
        event_actions(Some(mode), true, ConnectionEvent::Cancelled) == closing_actions(Some(mode)),
        event_actions(Some(mode), true, ConnectionEvent::Cancelled) != event_actions(
            None,
            false,
            ConnectionEvent::Cancelled,
        ),
{
    let with = event_actions(Some(mode), true, ConnectionEvent::Cancelled);
    let without = event_actions(None, false, ConnectionEvent::Cancelled);
    assert(without[0] is CloseConnection);
    assert(!(with[0] is CloseConnection));
}

/// An abrupt close sends nothing at all; the other two modes send one close frame and nothing
/// else, with the configured code and reason where there are any.
pub proof fn law_close_frames(mode: &CloseMode)
    ensures
        closing_actions(Some(mode)).last() is Stop,
        match mode {
            CloseMode::Frame { code, reason } => closing_actions(Some(mode)).drop_last() == seq![
                ConnectionActionModel::SendClose { code: *code, reason: reason@ },
            ],
            CloseMode::EmptyFrame => closing_actions(Some(mode)).drop_last() == seq![
                ConnectionActionModel::SendEmptyClose,
            ],
            CloseMode::Abrupt => closing_actions(Some(mode)).drop_last() == Seq::<
                ConnectionActionModel,
            >::empty(),
        },
{
    let sent = closing_actions(Some(mode)).drop_last();
    match mode {
        CloseMode::Frame { code, reason } => {
            assert(sent =~= seq![
                ConnectionActionModel::SendClose { code: *code, reason: reason@ },
            ]);
        },
        CloseMode::EmptyFrame => {
            assert(sent =~= seq![ConnectionActionModel::SendEmptyClose]);
        },
        CloseMode::Abrupt => {
            assert(sent =~= Seq::empty());
        },
    }
}

/// Nothing is done after the loop has been left; and when it is left for any reason but
/// cancellation, the token is cancelled first.
pub proof fn law_stop_comes_last(
    mode: Option<&CloseMode>,
    triggered: bool,
    event: ConnectionEvent,
    i: int,
)
    requires
        0 <= i < event_actions(mode, triggered, event).len(),
        event_actions(mode, triggered, event)[i] is Stop,
    ensures
        i == event_actions(mode, triggered, event).len() - 1,
        !(event is Cancelled) ==> event_actions(mode, triggered, event)[0] is Cancel,
{
}

/// Every text that is delivered to the session is recorded first, as it came, where there is a
/// control to record it; and nothing is recorded without a control.
pub proof fn law_delivered_text_is_recorded(
    mode: Option<&CloseMode>,
    triggered: bool,
    event: ConnectionEvent,
    i: int,
)
    requires
        0 <= i < event_actions(mode, triggered, event).len(),
    ensures
        ({
            let actions = event_actions(mode, triggered, event);
            match actions[i] {
                ConnectionActionModel::Deliver(text) => mode is Some ==> i == 1 && actions[0]
                    == ConnectionActionModel::Record(text),
                ConnectionActionModel::Record(text) => mode is Some && i == 0 && actions[1]
                    == ConnectionActionModel::Deliver(text),
                _ => true,
            }
        }),
{
}

/// Whether a connection is still served after a run of events. With each event stands whether the
/// close was seen to be triggered when it came.
pub open spec fn still_served(
    mode: Option<&CloseMode>,
    events: Seq<(ConnectionEvent, bool)>,
) -> bool
    decreases events.len(),
{
    events.len() > 0 ==> {
        let (event, triggered) = events.last();
        &&& still_served(mode, events.drop_last())
        &&& !event_actions(mode, triggered, event).contains(ConnectionActionModel::Stop)
    }
}

/// What is done about a run of events on a connection: something about each of them, up to the
/// one that the loop is left at.
pub open spec fn run_actions(
    mode: Option<&CloseMode>,
    events: Seq<(ConnectionEvent, bool)>,
) -> Seq<ConnectionActionModel>
    decreases events.len(),
{
    if events.len() == 0 {
        Seq::empty()
    } else if still_served(mode, events.drop_last()) {
        let (event, triggered) = events.last();
        run_actions(mode, events.drop_last()) + event_actions(mode, triggered, event)
    } else {
        run_actions(mode, events.drop_last())
    }
}

/// A connection that is still served has not been told to stop, and one that is no longer served
/// has been told so once, as the last thing of all.
pub proof fn law_loop_is_left_once(
    mode: Option<&CloseMode>,
    events: Seq<(ConnectionEvent, bool)>,
    i: int,
)
    requires
        0 <= i < run_actions(mode, events).len(),
    ensures
        run_actions(mode, events)[i] is Stop <==> !still_served(mode, events) && i == run_actions(
            mode,
            events,
        ).len() - 1,
    decreases events.len(),
{
    let before = run_actions(mode, events.drop_last());
    if still_served(mode, events.drop_last()) {
        let (event, triggered) = events.last();
        let last = event_actions(mode, triggered, event);
        if i < before.len() {
            law_loop_is_left_once(mode, events.drop_last(), i);
            assert(run_actions(mode, events)[i] == before[i]);
        } else {
            let j: int = i - before.len();
            assert(run_actions(mode, events)[i] == last[j]);
            if last[j] is Stop {
                law_stop_comes_last(mode, triggered, event, j);
            }
        }
        if last.contains(ConnectionActionModel::Stop) {
            let k = choose|k: int| 0 <= k < last.len() && last[k] == ConnectionActionModel::Stop;
            law_stop_comes_last(mode, triggered, event, k);
        }
    } else {
        law_loop_is_left_once(mode, events.drop_last(), i);
    }
}

/// The text that an event brings from the client, if it brings any.
pub open spec fn event_text(event: ConnectionEvent) -> Seq<Seq<char>> {
    match event {
        ConnectionEvent::Text(text) => seq![text@],
        ConnectionEvent::Binary(data) => if vstd::utf8::valid_utf8(data@) {
            seq![vstd::utf8::decode_utf8(data@)]
        } else {
            seq![]
        },
        _ => seq![],
    }
}

/// The texts that the client sends while the connection is served, in arrival order.
pub open spec fn event_texts(
    mode: Option<&CloseMode>,
    events: Seq<(ConnectionEvent, bool)>,
) -> Seq<Seq<char>>
    decreases events.len(),
{
    if events.len() == 0 {
        Seq::empty()
    } else if still_served(mode, events.drop_last()) {
        event_texts(mode, events.drop_last()) + event_text(events.last().0)
    } else {
        event_texts(mode, events.drop_last())
    }
}

/// The texts that are recorded.
pub open spec fn recorded(actions: Seq<ConnectionActionModel>) -> Seq<Seq<char>>
    decreases actions.len(),
{
    if actions.len() == 0 {
        Seq::empty()
    } else {
        match actions.last() {
            ConnectionActionModel::Record(text) => recorded(actions.drop_last()).push(text),
            _ => recorded(actions.drop_last()),
        }
    }
}

/// The texts that are delivered to the session.
pub open spec fn delivered(actions: Seq<ConnectionActionModel>) -> Seq<Seq<char>>
    decreases actions.len(),
{
    if actions.len() == 0 {
        Seq::empty()
    } else {
        match actions.last() {
            ConnectionActionModel::Deliver(text) => delivered(actions.drop_last()).push(text),
            _ => delivered(actions.drop_last()),
        }
    }
}

/// Over any run of events, the session is given every text that the client sends while the
/// connection is served, in arrival order; and so is the control, where there is one.
pub proof fn law_every_text_arrives(
    mode: Option<&CloseMode>,
    events: Seq<(ConnectionEvent, bool)>,
)
    ensures
        delivered(run_actions(mode, events)) == event_texts(mode, events),
        recorded(run_actions(mode, events)) == if mode is Some {
            event_texts(mode, events)
        } else {
            Seq::empty()
        },
    decreases events.len(),
{
    if events.len() > 0 {
        law_every_text_arrives(mode, events.drop_last());
        if still_served(mode, events.drop_last()) {
            let (event, triggered) = events.last();
            let before = run_actions(mode, events.drop_last());
            let last = event_actions(mode, triggered, event);
            lemma_texts_add_up(before, last);
            lemma_texts_of_one_event(mode, triggered, event);
            if mode is None {
                assert(recorded(before) + recorded(last) =~= Seq::empty());
            }
        }
    }
}

proof fn lemma_texts_of_one_event(
    mode: Option<&CloseMode>,
    triggered: bool,
    event: ConnectionEvent,
)
    ensures
        ({
            let actions = event_actions(mode, triggered, event);
            &&& delivered(actions) == event_text(event)
            &&& recorded(actions) == if mode is Some {
                event_text(event)
            } else {
                Seq::empty()
            }
        }),
{
    let actions = event_actions(mode, triggered, event);
    reveal_with_fuel(recorded, 4);
    reveal_with_fuel(delivered, 4);
    assert(delivered(actions) =~= event_text(event));
    assert(recorded(actions) =~= if mode is Some {
        event_text(event)
    } else {
        Seq::empty()
    });
}

proof fn lemma_texts_add_up(first: Seq<ConnectionActionModel>, second: Seq<ConnectionActionModel>)
    ensures
        recorded(first + second) == recorded(first) + recorded(second),
        delivered(first + second) == delivered(first) + delivered(second),
    decreases second.len(),
{
    if second.len() == 0 {
        assert(first + second =~= first);
        assert(recorded(first) + recorded(second) =~= recorded(first));
        assert(delivered(first) + delivered(second) =~= delivered(first));
    } else {
        assert((first + second).drop_last() =~= first + second.drop_last());
        lemma_texts_add_up(first, second.drop_last());
        assert(recorded(first + second) =~= recorded(first) + recorded(second));
        assert(delivered(first + second) =~= delivered(first) + delivered(second));
    }
}

/// It makes no difference whether a client sends a message as text or as the UTF-8 bytes of it.
pub proof fn law_binary_is_as_good_as_text(
    mode: Option<&CloseMode>,
    triggered: bool,
    text: String,
    data: Vec<u8>,
)
    requires
        data@ == vstd::utf8::encode_utf8(text@),
    ensures
        event_actions(mode, triggered, ConnectionEvent::Binary(data)) == event_actions(
            mode,
            triggered,
            ConnectionEvent::Text(text),
        ),
{
    vstd::utf8::encode_utf8_valid_utf8(text@);
    vstd::utf8::encode_utf8_decode_utf8(text@);
}

/// The text that an event of the session sends to the client, if it sends any.
pub open spec fn queued_text(event: ConnectionEvent) -> Seq<Seq<char>> {
    match event {
        ConnectionEvent::Session(SessionEvent::SendMessage(json)) => seq![json@],
        _ => seq![],
    }
}

/// The texts that the session queues while the connection is served, in order.
pub open spec fn queued_texts(
    mode: Option<&CloseMode>,
    events: Seq<(ConnectionEvent, bool)>,
) -> Seq<Seq<char>>
    decreases events.len(),
{
    if events.len() == 0 {
        Seq::empty()
    } else if still_served(mode, events.drop_last()) {
        queued_texts(mode, events.drop_last()) + queued_text(events.last().0)
    } else {
        queued_texts(mode, events.drop_last())
    }
}

/// The texts that are sent to the client.
pub open spec fn sent(actions: Seq<ConnectionActionModel>) -> Seq<Seq<char>>
    decreases actions.len(),
{
    if actions.len() == 0 {
        Seq::empty()
    } else {
        match actions.last() {
            ConnectionActionModel::SendText(text) => sent(actions.drop_last()).push(text),
            _ => sent(actions.drop_last()),
        }
    }
}

/// Over any run of events, with a control or without, the client is sent every message that the
/// session queues while the connection is served, as it is and in order, and no other.
pub proof fn law_every_message_is_sent(
    mode: Option<&CloseMode>,
    events: Seq<(ConnectionEvent, bool)>,
)
    ensures
        sent(run_actions(mode, events)) == queued_texts(mode, events),
    decreases events.len(),
{
    if events.len() > 0 {
        law_every_message_is_sent(mode, events.drop_last());
        if still_served(mode, events.drop_last()) {
            let (event, triggered) = events.last();
            let before = run_actions(mode, events.drop_last());
            let last = event_actions(mode, triggered, event);
            lemma_sent_adds_up(before, last);
            lemma_sent_of_one_event(mode, triggered, event);
        }
    }
}

proof fn lemma_sent_of_one_event(
    mode: Option<&CloseMode>,
    triggered: bool,
    event: ConnectionEvent,
)
    ensures
        sent(event_actions(mode, triggered, event)) == queued_text(event),
{
    reveal_with_fuel(sent, 4);
    assert(sent(event_actions(mode, triggered, event)) =~= queued_text(event));
}

proof fn lemma_sent_adds_up(first: Seq<ConnectionActionModel>, second: Seq<ConnectionActionModel>)
    ensures
        sent(first + second) == sent(first) + sent(second),
    decreases second.len(),
{
    if second.len() == 0 {
        assert(first + second =~= first);
        assert(sent(first) + sent(second) =~= sent(first));
    } else {
        assert((first + second).drop_last() =~= first + second.drop_last());
        lemma_sent_adds_up(first, second.drop_last());
        assert(sent(first + second) =~= sent(first) + sent(second));
    }
}

/// What each event comes to, with a control or without. A ping is answered with its own data and
/// a message of the session with a text frame; a pong, and bytes that are no text, with nothing. A
/// close by the session cancels the token, closes the connection and leaves the loop, and so the
/// end of either side, or a failure to read or write, cancels the token and leaves it. A control
/// makes no difference to these, nor does its trigger.
pub proof fn law_each_event(mode: Option<&CloseMode>, triggered: bool, event: ConnectionEvent)
    ensures
        ({
            let actions = event_actions(mode, triggered, event);
            match event {
                ConnectionEvent::Ping(data) => {
                    &&& actions.len() == 1
                    &&& actions[0] == ConnectionActionModel::SendPong(data@)
                },
                ConnectionEvent::Session(SessionEvent::SendMessage(json)) => {
                    &&& actions.len() == 1
                    &&& actions[0] == ConnectionActionModel::SendText(json@)
                },
                ConnectionEvent::Pong => actions.len() == 0,
                ConnectionEvent::Binary(data) => vstd::utf8::valid_utf8(data@)
                    <==> actions.len() > 0,
                ConnectionEvent::Session(SessionEvent::Close) => {
                    &&& actions.len() == 3
                    &&& actions[0] is Cancel
                    &&& actions[1] is CloseConnection
                    &&& actions[2] is Stop
                },
                ConnectionEvent::Text(_) => actions.len() == if mode is Some {
                    2nat
                } else {
                    1nat
                },
                ConnectionEvent::Cancelled => actions.len() > 0 && actions.last() is Stop,
                _ => {
                    &&& actions.len() == 2
                    &&& actions[0] is Cancel
                    &&& actions[1] is Stop
                },
            }
        }),
{
}

/// A connection that was cancelled without a triggered control is closed, and the loop is left.
pub proof fn law_ordinary_close(mode: Option<&CloseMode>, triggered: bool)
    requires
        mode is None || !triggered,
    ensures
        event_actions(mode, triggered, ConnectionEvent::Cancelled) == seq![
            ConnectionActionModel::CloseConnection,
            ConnectionActionModel::Stop,
        ],
{
}

/// The mode that counts is that of the control, where there is one; and actions and texts are seen
/// whole and in order.
pub proof fn law_control_and_actions_are_seen_whole(
    control: &ServerControl,
    actions: Seq<ConnectionAction>,
    texts: Seq<String>,
    i: int,
)
    ensures
        mode_of(Some(control)) == Some(&control.mode()),
        mode_of(None) is None,
        actions_view(actions).len() == actions.len(),
        texts_view(texts).len() == texts.len(),
        0 <= i < texts.len() ==> texts_view(texts)[i] == texts[i]@,
        0 <= i < actions.len() ==> actions_view(actions)[i] == match actions[i] {
            ConnectionAction::Record(text) => ConnectionActionModel::Record(text@),
            ConnectionAction::Deliver(text) => ConnectionActionModel::Deliver(text@),
            ConnectionAction::SendText(text) => ConnectionActionModel::SendText(text@),
            ConnectionAction::SendPong(data) => ConnectionActionModel::SendPong(data@),
            ConnectionAction::SendClose { code, reason } => ConnectionActionModel::SendClose {
                code,
                reason: reason@,
            },
            ConnectionAction::SendEmptyClose => ConnectionActionModel::SendEmptyClose,
            ConnectionAction::CloseConnection => ConnectionActionModel::CloseConnection,
            ConnectionAction::Cancel => ConnectionActionModel::Cancel,
            ConnectionAction::Stop => ConnectionActionModel::Stop,
        },
{
}

} // verus!
