use gemini_live_mock_server::server::{
    handle_event, handle_event_with, CloseMode, ConnectionAction, ConnectionEvent,
    SendMessageError, ServerControl,
};
use gemini_live_mock_server::session::SessionEvent;

/// The actions in a short notation.
fn brief(actions: Vec<ConnectionAction>) -> Vec<String> {
    actions
        .into_iter()
        .map(|a| match a {
            ConnectionAction::Record(t) => format!("record {t}"),
            ConnectionAction::Deliver(t) => format!("deliver {t}"),
            ConnectionAction::SendText(t) => format!("text {t}"),
            ConnectionAction::SendPong(d) => format!("pong {d:?}"),
            ConnectionAction::SendClose { code, reason } => format!("close {code} {reason}"),
            ConnectionAction::SendEmptyClose => "empty close".to_string(),
            ConnectionAction::CloseConnection => "close connection".to_string(),
            ConnectionAction::Cancel => "cancel".to_string(),
            ConnectionAction::Stop => "stop".to_string(),
        })
        .collect()
}

fn frame() -> CloseMode {
    CloseMode::Frame { code: 1008, reason: "policy violation".to_string() }
}

#[test]
fn a_triggered_close_follows_the_mode() {
    let cases = [
        (frame(), vec!["close 1008 policy violation", "stop"]),
        (CloseMode::EmptyFrame, vec!["empty close", "stop"]),
        (CloseMode::Abrupt, vec!["stop"]),
    ];
    for (mode, expected) in cases {
        let control = ServerControl::new(mode);
        assert!(!control.is_triggered());
        control.trigger_close();
        assert!(control.is_triggered());
        assert_eq!(brief(handle_event(Some(&control), ConnectionEvent::Cancelled)), expected);
    }
}

#[test]
fn a_close_that_was_not_triggered_is_an_ordinary_one() {
    let control = ServerControl::new(frame());
    let expected = vec!["close connection", "stop"];
    assert_eq!(brief(handle_event(Some(&control), ConnectionEvent::Cancelled)), expected);
    assert_eq!(brief(handle_event(None, ConnectionEvent::Cancelled)), expected);
    assert_eq!(
        brief(handle_event_with(Some(&frame()), false, ConnectionEvent::Cancelled)),
        expected
    );
}

#[test]
fn the_connection_token_follows_the_control_and_not_the_other_way_round() {
    let control = ServerControl::new(CloseMode::Abrupt);
    let first = control.connection_token();
    let second = control.connection_token();
    first.cancel();
    assert!(!control.is_triggered());
    assert!(!second.is_cancelled());
    control.trigger_close();
    assert!(second.is_cancelled());
    assert!(control.connection_token().is_cancelled());
}

#[test]
fn text_is_recorded_and_delivered() {
    let control = ServerControl::new(CloseMode::Abrupt);
    let event = || ConnectionEvent::Text("{}".to_string());
    assert_eq!(brief(handle_event(Some(&control), event())), vec!["record {}", "deliver {}"]);
    assert_eq!(brief(handle_event(None, event())), vec!["deliver {}"]);
}

#[test]
fn binary_is_taken_as_utf8_text() {
    let control = ServerControl::new(CloseMode::Abrupt);
    let text = "{\"a\":\"\u{fc}\u{20ac}\u{1f600}\"}";
    let binary = brief(handle_event(Some(&control), ConnectionEvent::Binary(text.as_bytes().to_vec())));
    assert_eq!(binary, vec![format!("record {text}"), format!("deliver {text}")]);
    assert_eq!(
        binary,
        brief(handle_event(Some(&control), ConnectionEvent::Text(text.to_string())))
    );
    // Not UTF-8
    assert!(handle_event(Some(&control), ConnectionEvent::Binary(vec![0xff, 0xfe])).is_empty());
    assert!(handle_event(None, ConnectionEvent::Binary(vec![0xc3])).is_empty());
}

#[test]
fn pings_are_answered() {
    assert_eq!(brief(handle_event(None, ConnectionEvent::Ping(vec![1, 2]))), vec!["pong [1, 2]"]);
    assert!(handle_event(None, ConnectionEvent::Pong).is_empty());
}

#[test]
fn a_connection_that_is_over_is_given_up() {
    let over = [
        ConnectionEvent::Close,
        ConnectionEvent::ReadFailed,
        ConnectionEvent::Ended,
        ConnectionEvent::SessionEnded,
        ConnectionEvent::WriteFailed,
    ];
    for event in over {
        assert_eq!(brief(handle_event(None, event)), vec!["cancel", "stop"]);
    }
}

#[test]
fn session_events_go_to_the_client() {
    let send = ConnectionEvent::Session(SessionEvent::SendMessage("{\"x\":1}".to_string()));
    assert_eq!(brief(handle_event(None, send)), vec!["text {\"x\":1}"]);
    let close = ConnectionEvent::Session(SessionEvent::Close);
    assert_eq!(brief(handle_event(None, close)), vec!["cancel", "close connection", "stop"]);
}

#[test]
fn received_messages_are_kept_in_arrival_order() {
    let mut control = ServerControl::new(CloseMode::Abrupt);
    assert!(control.received_messages().is_empty());
    control.record("one".to_string());
    control.record("not json".to_string());
    control.record("one".to_string());
    assert_eq!(control.received_messages(), vec!["one", "not json", "one"]);
    assert_eq!(control.received_messages().len(), 3);
}

#[test]
fn every_text_arrives_in_order() {
    let mut control = ServerControl::new(frame());
    let events = vec![
        ConnectionEvent::Text("a".to_string()),
        ConnectionEvent::Ping(vec![]),
        ConnectionEvent::Binary(b"b".to_vec()),
        ConnectionEvent::Binary(vec![0x80]),
        ConnectionEvent::Session(SessionEvent::SendMessage("out".to_string())),
        ConnectionEvent::Text("c".to_string()),
        ConnectionEvent::Close,
    ];
    let mut delivered = Vec::new();
    for event in events {
        for action in handle_event(Some(&control), event) {
            match action {
                ConnectionAction::Record(text) => control.record(text),
                ConnectionAction::Deliver(text) => delivered.push(text),
                _ => {}
            }
        }
    }
    assert_eq!(delivered, vec!["a", "b", "c"]);
    assert_eq!(control.received_messages(), delivered);
}

#[test]
fn errors_read_well() {
    assert_eq!(
        SendMessageError::Serialize("key must be a string".to_string()).to_text(),
        "failed to serialize message: key must be a string"
    );
    assert_eq!(
        SendMessageError::NoActiveSession.to_text(),
        "no active session to deliver the message to"
    );
}

#[test]
fn texts_arrive_until_the_loop_is_left() {
    let text = |t: &str| ConnectionEvent::Text(t.to_string());
    // With each event, whether the close was seen to be triggered
    let events = vec![
        (text("a"), false),
        (text("b"), true),
        (text("c"), false),
        (ConnectionEvent::Cancelled, true),
        (text("d"), true),
    ];
    let mut done = Vec::new();
    for (event, triggered) in events {
        done.extend(brief(handle_event_with(Some(&frame()), triggered, event)));
        if done.last() == Some(&"stop".to_string()) {
            break;
        }
    }
    assert_eq!(
        done,
        vec![
            "record a",
            "deliver a",
            "record b",
            "deliver b",
            "record c",
            "deliver c",
            "close 1008 policy violation",
            "stop",
        ]
    );
}
