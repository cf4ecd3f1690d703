use vstd::prelude::*;

verus! {

/// The kind of a request that a WebSocket client sends to the session.
#[derive(Debug, Clone, Copy, PartialEq, Eq, Structural)]
pub enum ControlType {
    SendMessage,
    SendReaction,
    EditMessage,
    RevokeMessage,
    Disconnect,
    Logout,
    GetStatus,
}

/// The kind of a notification that the session publishes to WebSocket clients.
#[derive(Debug, Clone, Copy, PartialEq, Eq, Structural)]
pub enum EventType {
    PairQr,
    PairCode,
    PairSuccess,
    PairError,
    LoggedOut,
    Disconnected,
    Message,
    Ack,
}

/// The body of a control request or of an event.
#[derive(Debug, Clone, PartialEq, Eq)]
pub enum Payload {
    SendMessage { to: String, text: String, quote_id: Option<String>, quote_sender: Option<String> },
    SendReaction { to: String, message_id: String, sender: Option<String>, emoji: String },
    EditMessage { to: String, message_id: String, new_text: String },
    RevokeMessage { to: String, message_id: String, original_sender: Option<String> },
    PairQr { code: String },
    PairCode { code: String, expires_in: u64 },
    PairError { reason: String },
    IncomingMessage { from: String, text: String, message_id: String },
    Ack { ok: bool, error: Option<String> },
    Empty {},
}

/// A request from a WebSocket client: its kind, the client's id for it, and its body.
#[derive(Debug, Clone, PartialEq, Eq)]
pub struct ControlMessage {
    pub kind: ControlType,
    pub id: String,
    pub payload: Payload,
}

/// A notification to WebSocket clients; `id` names the request it answers, if any.
#[derive(Debug, Clone, PartialEq, Eq)]
pub struct EventMessage {
    pub kind: EventType,
    pub id: Option<String>,
    pub payload: Payload,
}

/// `m` acknowledges request `id`, accepted (`ok`) or refused with `error`.
pub open spec fn acknowledges(m: EventMessage, id: Seq<char>, ok: bool, error: Option<String>) -> bool {
    &&& m.kind == EventType::Ack
    &&& m.id matches Some(i) && i@ == id
    &&& m.payload == (Payload::Ack { ok, error })
}

/// `m` announces an event of kind `kind` with body `payload`, answering no request.
pub open spec fn announces(m: EventMessage, kind: EventType, payload: Payload) -> bool {
    &&& m.kind == kind
    &&& m.id is None
    &&& m.payload == payload
}

impl EventMessage {
    /// The acknowledgement of request `id`: whether it was accepted, and why not.
    pub fn ack(id: &str, ok: bool, error: Option<String>) -> (res: Self)
        ensures
            acknowledges(res, id@, ok, error),
            res.kind == EventType::Ack,
            res.id matches Some(i) && i@ == id@,
            res.payload == (Payload::Ack { ok, error }),
    {
        EventMessage { kind: EventType::Ack, id: Some(id.to_owned()), payload: Payload::Ack { ok, error } }
    }

    /// An unsolicited event: it answers no request.
    pub fn event(kind: EventType, payload: Payload) -> (res: Self)
        ensures
            announces(res, kind, payload),
            res.kind == kind,
            res.id is None,
            res.payload == payload,
    {
        EventMessage { kind, id: None, payload }
    }
}


/// An acknowledgement always answers the request it names: it is of kind `Ack`,
/// carries that request's id, and says in its body whether the request was
/// accepted and, if given, why not.
pub proof fn acks_answer_the_request_they_name(
    m: EventMessage,
    id: Seq<char>,
    ok: bool,
    error: Option<String>,
)
    requires
        acknowledges(m, id, ok, error),
    ensures
        m.kind == EventType::Ack,
        m.id is Some,
        m.id->Some_0@ == id,
        m.payload is Ack,
        m.payload->ok == ok,
        m.payload->error == error,
{
}

/// An announced event answers no request and keeps the kind and body it was given.
pub proof fn events_answer_no_request(m: EventMessage, kind: EventType, payload: Payload)
    requires
        announces(m, kind, payload),
    ensures
        m.id is None,
        m.kind == kind,
        m.payload == payload,
{
}

} // verus!
