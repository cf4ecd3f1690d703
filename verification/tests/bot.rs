use zevbot::bot::{event_message, plan_control, BotEvent, ClientCommand, RevokeBy};
use zevbot::messages::{ControlMessage, ControlType, EventMessage, EventType, Payload};

fn s(x: &str) -> String {
    x.to_string()
}

fn ctrl(kind: ControlType, payload: Payload) -> ControlMessage {
    ControlMessage { kind, id: s("r1"), payload }
}

#[test]
fn pairing_events_are_published() {
    assert_eq!(
        event_message(BotEvent::PairingQrCode { code: s("QR") }),
        Some(EventMessage { kind: EventType::PairQr, id: None, payload: Payload::PairQr { code: s("QR") } })
    );
    assert_eq!(
        event_message(BotEvent::PairingCode { code: s("ABCD"), timeout_secs: 180 }),
        Some(EventMessage {
            kind: EventType::PairCode,
            id: None,
            payload: Payload::PairCode { code: s("ABCD"), expires_in: 180 }
        })
    );
    assert_eq!(
        event_message(BotEvent::PairSuccess),
        Some(EventMessage { kind: EventType::PairSuccess, id: None, payload: Payload::Empty {} })
    );
    assert_eq!(
        event_message(BotEvent::PairError),
        Some(EventMessage {
            kind: EventType::PairError,
            id: None,
            payload: Payload::PairError { reason: s("Pairing failed") }
        })
    );
}

#[test]
fn connection_events_are_published() {
    assert_eq!(event_message(BotEvent::LoggedOut).map(|m| m.kind), Some(EventType::LoggedOut));
    assert_eq!(event_message(BotEvent::Disconnected).map(|m| m.payload), Some(Payload::Empty {}));
}

#[test]
fn incoming_messages_are_published() {
    assert_eq!(
        event_message(BotEvent::Message { text: Some(s("hi")), from: s("55@s.whatsapp.net"), message_id: s("M1") }),
        Some(EventMessage {
            kind: EventType::Message,
            id: None,
            payload: Payload::IncomingMessage { from: s("55@s.whatsapp.net"), text: s("hi"), message_id: s("M1") }
        })
    );
    let m = event_message(BotEvent::Message { text: None, from: s("a"), message_id: s("b") }).unwrap();
    assert_eq!(m.payload, Payload::IncomingMessage { from: s("a"), text: s(""), message_id: s("b") });
}

#[test]
fn other_events_are_not_published() {
    assert_eq!(event_message(BotEvent::Other), None);
}

#[test]
fn send_message_plans() {
    let p = Payload::SendMessage { to: s("55@s.whatsapp.net"), text: s("yo"), quote_id: None, quote_sender: None };
    assert_eq!(
        plan_control(ctrl(ControlType::SendMessage, p)),
        Some(ClientCommand::SendText { to: s("55@s.whatsapp.net"), text: s("yo"), quote: None })
    );
    let p = Payload::SendMessage { to: s("t"), text: s("yo"), quote_id: Some(s("Q")), quote_sender: Some(s("S")) };
    assert_eq!(
        plan_control(ctrl(ControlType::SendMessage, p)),
        Some(ClientCommand::SendText { to: s("t"), text: s("yo"), quote: Some((s("Q"), s("S"))) })
    );
    let p = Payload::SendMessage { to: s("t"), text: s("yo"), quote_id: Some(s("Q")), quote_sender: None };
    assert_eq!(
        plan_control(ctrl(ControlType::SendMessage, p)),
        Some(ClientCommand::SendText { to: s("t"), text: s("yo"), quote: None })
    );
}

#[test]
fn other_request_plans() {
    let p = Payload::SendReaction { to: s("t"), message_id: s("m"), sender: None, emoji: s("👍") };
    assert_eq!(
        plan_control(ctrl(ControlType::SendReaction, p)),
        Some(ClientCommand::SendReaction { to: s("t"), message_id: s("m"), sender: None, emoji: s("👍") })
    );
    let p = Payload::EditMessage { to: s("t"), message_id: s("m"), new_text: s("n") };
    assert_eq!(
        plan_control(ctrl(ControlType::EditMessage, p)),
        Some(ClientCommand::EditMessage { to: s("t"), message_id: s("m"), new_text: s("n") })
    );
    let p = Payload::RevokeMessage { to: s("t"), message_id: s("m"), original_sender: None };
    assert_eq!(
        plan_control(ctrl(ControlType::RevokeMessage, p)),
        Some(ClientCommand::RevokeMessage { to: s("t"), message_id: s("m"), revoke: RevokeBy::Sender })
    );
    let p = Payload::RevokeMessage { to: s("t"), message_id: s("m"), original_sender: Some(s("o")) };
    assert_eq!(
        plan_control(ctrl(ControlType::RevokeMessage, p)),
        Some(ClientCommand::RevokeMessage {
            to: s("t"),
            message_id: s("m"),
            revoke: RevokeBy::Admin { original_sender: s("o") }
        })
    );
    assert_eq!(plan_control(ctrl(ControlType::GetStatus, Payload::Empty {})), Some(ClientCommand::ReportStatus));
    assert_eq!(plan_control(ctrl(ControlType::Disconnect, Payload::Empty {})), Some(ClientCommand::Disconnect));
    assert_eq!(
        plan_control(ctrl(ControlType::Logout, Payload::PairQr { code: s("x") })),
        Some(ClientCommand::Logout)
    );
}

#[test]
fn mismatched_payload_is_dropped() {
    assert_eq!(plan_control(ctrl(ControlType::SendMessage, Payload::Empty {})), None);
    let p = Payload::SendMessage { to: s("t"), text: s("x"), quote_id: None, quote_sender: None };
    assert_eq!(plan_control(ctrl(ControlType::EditMessage, p)), None);
    assert_eq!(plan_control(ctrl(ControlType::RevokeMessage, Payload::Ack { ok: true, error: None })), None);
    assert_eq!(plan_control(ctrl(ControlType::SendReaction, Payload::Empty {})), None);
}
