use zevbot::messages::{EventMessage, EventType, Payload};

#[test]
fn ack_answers_its_request() {
    let m = EventMessage::ack("req-1", true, None);
    assert_eq!(m.kind, EventType::Ack);
    assert_eq!(m.id.as_deref(), Some("req-1"));
    assert_eq!(m.payload, Payload::Ack { ok: true, error: None });
}

#[test]
fn refused_ack_keeps_its_error() {
    let m = EventMessage::ack("unknown", false, Some("bad json".to_string()));
    assert_eq!(m.id.as_deref(), Some("unknown"));
    assert_eq!(m.payload, Payload::Ack { ok: false, error: Some("bad json".to_string()) });
}

#[test]
fn events_answer_no_request() {
    let m = EventMessage::event(EventType::PairQr, Payload::PairQr { code: "qr".to_string() });
    assert_eq!(m.kind, EventType::PairQr);
    assert_eq!(m.id, None);
    assert_eq!(m.payload, Payload::PairQr { code: "qr".to_string() });
}
