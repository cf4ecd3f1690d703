use vstd::prelude::*;
use crate::messages::{ControlMessage, EventMessage, EventType, Payload};

verus! {

/// What happens on one WebSocket connection, as seen by its control loop.
#[derive(Debug, PartialEq, Eq)]
pub enum SocketEvent {
    /// An event (already in wire form) was published for the clients.
    Broadcast(String),
    /// Writing to the client failed.
    DeliveryFailed,
    /// The client sent a text frame: the request it holds, or why it is no request.
    ClientText(Result<ControlMessage, String>),
    /// The client closed the connection.
    ClientClose,
    /// The client sent a frame that is neither text nor close.
    ClientOther,
    /// Neither the client nor the event stream can deliver anything more.
    StreamsEnded,
}

/// One thing the connection's loop must do.
#[derive(Debug, Clone, PartialEq, Eq)]
pub enum SocketAction {
    /// Write this text frame to the client.
    SendToClient(String),
    /// Publish this event to every client.
    PublishEvent(EventMessage),
    /// Hand this request to the session.
    ForwardControl(ControlMessage),
}

/// What the loop does for one event, and whether the connection stays open.
#[derive(Debug, Clone, PartialEq, Eq)]
pub struct SocketStep {
    pub actions: Vec<SocketAction>,
    pub keep_open: bool,
}

/// The events after which the connection is given up.
pub open spec fn ends_connection(ev: SocketEvent) -> bool {
    ev is DeliveryFailed || ev is ClientClose || ev is StreamsEnded
}

/// `a` is the acknowledgement of request `id`, accepted or refused with `error`.
pub open spec fn is_ack(a: SocketAction, id: Seq<char>, ok: bool, error: Option<Seq<char>>) -> bool {
    match a {
        SocketAction::PublishEvent(m) => {
            &&& m.kind == EventType::Ack
            &&& m.id matches Some(i) && i@ == id
            &&& match m.payload {
                Payload::Ack { ok: o, error: e } => o == ok && match (e, error) {
                    (Some(s), Some(t)) => s@ == t,
                    (None, None) => true,
                    _ => false,
                },
                _ => false,
            }
        },
        _ => false,
    }
}

/// `actions` is what the loop does for `ev`.
pub open spec fn reacts(ev: SocketEvent, actions: Seq<SocketAction>) -> bool {
    match ev {
        SocketEvent::Broadcast(text) => actions == seq![SocketAction::SendToClient(text)],
        SocketEvent::ClientText(Ok(ctrl)) => {
            &&& actions.len() == 2
            &&& is_ack(actions[0], ctrl.id@, true, None)
            &&& actions[1] == SocketAction::ForwardControl(ctrl)
        },
        SocketEvent::ClientText(Err(reason)) => {
            &&& actions.len() == 1
            &&& is_ack(actions[0], "unknown"@, false, Some(reason@))
        },
        _ => actions.len() == 0,
    }
}

/// `step` is what the loop does for `ev`, and whether it goes on.
pub open spec fn steps_to(ev: SocketEvent, step: SocketStep) -> bool {
    &&& reacts(ev, step.actions@)
    &&& step.keep_open == !ends_connection(ev)
}

/// The decision of a connection's loop on one event: a published event is written
/// to the client; a request is acknowledged to every client and then handed to the
/// session; text that is no request is answered by a refused acknowledgement with
/// the id `unknown` and the reason; other frames are ignored. A failed write, a
/// close or the end of both streams ends the connection.
pub fn socket_step(ev: SocketEvent) -> (res: SocketStep)
    ensures
        steps_to(ev, res),
        res.keep_open <==> !(ev is DeliveryFailed || ev is ClientClose || ev is StreamsEnded),
{
    let mut actions: Vec<SocketAction> = Vec::new();
    let keep_open = match ev {
        SocketEvent::Broadcast(text) => {
            actions.push(SocketAction::SendToClient(text));
            true
        },
        SocketEvent::DeliveryFailed => false,
        SocketEvent::ClientText(parsed) => {
            match parsed {
                Ok(ctrl) => {
                    let ack = EventMessage::ack(ctrl.id.as_str(), true, None);
                    actions.push(SocketAction::PublishEvent(ack));
                    actions.push(SocketAction::ForwardControl(ctrl));
                },
                Err(reason) => {
                    let ack = EventMessage::ack("unknown", false, Some(reason));
                    actions.push(SocketAction::PublishEvent(ack));
                },
            }
            true
        },
        SocketEvent::ClientClose => false,
        SocketEvent::ClientOther => true,
        SocketEvent::StreamsEnded => false,
    };
    proof {
        assert(reacts(ev, actions@));
    }
    SocketStep { actions, keep_open }
}

/// A request is never handed to the session before it is acknowledged, and the
/// acknowledgement carries the request's own id.
pub proof fn forwarded_requests_are_acknowledged_first(
    ev: SocketEvent,
    actions: Seq<SocketAction>,
    k: int,
    ctrl: ControlMessage,
)
    requires
        reacts(ev, actions),
        0 <= k < actions.len(),
        actions[k] == SocketAction::ForwardControl(ctrl),
    ensures
        exists|j: int| 0 <= j < k && is_ack(#[trigger] actions[j], ctrl.id@, true, None),
{
    assert(is_ack(actions[0], ctrl.id@, true, None));
}

/// Text that is no request is never handed to the session.
pub proof fn refused_text_is_not_forwarded(reason: String, actions: Seq<SocketAction>, k: int)
    requires
        reacts(SocketEvent::ClientText(Err(reason)), actions),
        0 <= k < actions.len(),
    ensures
        !(actions[k] is ForwardControl),
{
}


/// A request from the client, of any kind, is acknowledged as accepted under its
/// own id, then handed to the session, and the connection stays open.
pub proof fn requests_are_acked_forwarded_and_keep_the_connection(ctrl: ControlMessage, step: SocketStep)
    requires
        steps_to(SocketEvent::ClientText(Ok(ctrl)), step),
    ensures
        step.keep_open,
        step.actions@.len() == 2,
        step.actions@[0] matches SocketAction::PublishEvent(m) && m.kind == EventType::Ack
            && m.payload == (Payload::Ack { ok: true, error: None }) && (m.id matches Some(i)
            && i@ == ctrl.id@),
        step.actions@[1] == SocketAction::ForwardControl(ctrl),
{
}

/// Text that holds no request is answered by one refused acknowledgement under the
/// id `unknown`, carrying the reason; nothing is forwarded and the connection stays open.
pub proof fn refused_text_gets_one_refusal(reason: String, step: SocketStep)
    requires
        steps_to(SocketEvent::ClientText(Err(reason)), step),
    ensures
        step.keep_open,
        step.actions@.len() == 1,
        step.actions@[0] matches SocketAction::PublishEvent(m) && m.kind == EventType::Ack
            && (m.id matches Some(i) && i@ == "unknown"@) && (m.payload matches Payload::Ack {
            ok,
            error,
        } && !ok && (error matches Some(e) && e@ == reason@)),
{
}

/// A published event is written to the client as it is, and the connection stays open.
pub proof fn broadcasts_are_written_unchanged(text: String, step: SocketStep)
    requires
        steps_to(SocketEvent::Broadcast(text), step),
    ensures
        step.keep_open,
        step.actions@ == seq![SocketAction::SendToClient(text)],
{
}

/// The connection is given up exactly on a failed write, a close by the client, or
/// the end of both streams; then, and on other frames, nothing is done.
pub proof fn connection_ends_only_on_failure_close_or_end(ev: SocketEvent, step: SocketStep)
    requires
        steps_to(ev, step),
    ensures
        !step.keep_open <==> (ev is DeliveryFailed || ev is ClientClose || ev is StreamsEnded),
        (ev is DeliveryFailed || ev is ClientClose || ev is StreamsEnded || ev is ClientOther)
            ==> step.actions@.len() == 0,
{
}

} // verus!
