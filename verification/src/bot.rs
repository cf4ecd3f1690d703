use vstd::prelude::*;
use crate::jid::{parse_jid, parsed_jid};
use crate::messages::{ControlMessage, ControlType, EventMessage, EventType, Payload};
use whatsapp_rust::Jid;
use whatsapp_rust::wacore_binary::jid::JidError;

verus! {

/// What the WhatsApp session reports, as far as the bridge cares.
#[derive(Debug, Clone, PartialEq, Eq)]
pub enum BotEvent {
    PairingQrCode { code: String },
    PairingCode { code: String, timeout_secs: u64 },
    PairSuccess,
    PairError,
    LoggedOut,
    Disconnected,
    /// An incoming chat message: its text, if it has any, its sender and its id.
    Message { text: Option<String>, from: String, message_id: String },
    /// Any other event; it is not published.
    Other,
}

/// The event kind and the payload shape belong together.
pub open spec fn kind_matches_payload(kind: EventType, payload: Payload) -> bool {
    match kind {
        EventType::PairQr => payload is PairQr,
        EventType::PairCode => payload is PairCode,
        EventType::PairSuccess => payload is Empty,
        EventType::PairError => payload is PairError,
        EventType::LoggedOut => payload is Empty,
        EventType::Disconnected => payload is Empty,
        EventType::Message => payload is IncomingMessage,
        EventType::Ack => payload is Ack,
    }
}

/// `res` is what the bridge publishes for the session event `ev`.
pub open spec fn publishes(ev: BotEvent, res: Option<EventMessage>) -> bool {
    match ev {
        BotEvent::PairingQrCode { code } => res == Some(
            EventMessage { kind: EventType::PairQr, id: None, payload: Payload::PairQr { code } },
        ),
        BotEvent::PairingCode { code, timeout_secs } => res == Some(
            EventMessage {
                kind: EventType::PairCode,
                id: None,
                payload: Payload::PairCode { code, expires_in: timeout_secs },
            },
        ),
        BotEvent::PairSuccess => res == Some(
            EventMessage { kind: EventType::PairSuccess, id: None, payload: Payload::Empty {  } },
        ),
        BotEvent::PairError => match res {
            Some(m) => {
                &&& m.kind == EventType::PairError
                &&& m.id is None
                &&& match m.payload {
                    Payload::PairError { reason } => reason@ == "Pairing failed"@,
                    _ => false,
                }
            },
            None => false,
        },
        BotEvent::LoggedOut => res == Some(
            EventMessage { kind: EventType::LoggedOut, id: None, payload: Payload::Empty {  } },
        ),
        BotEvent::Disconnected => res == Some(
            EventMessage { kind: EventType::Disconnected, id: None, payload: Payload::Empty {  } },
        ),
        BotEvent::Message { text, from, message_id } => match res {
            Some(m) => {
                &&& m.kind == EventType::Message
                &&& m.id is None
                &&& match m.payload {
                    Payload::IncomingMessage { from: f, text: t, message_id: mid } => {
                        &&& f == from
                        &&& mid == message_id
                        &&& t@ == match text {
                            Some(s) => s@,
                            None => Seq::<char>::empty(),
                        }
                    },
                    _ => false,
                }
            },
            None => false,
        },
        BotEvent::Other => res is None,
    }
}

/// The message the bridge publishes to WebSocket clients for a session event:
/// pairing events, logout, disconnection and incoming chat messages (an empty
/// text when the message has none); other events are not published.
pub fn event_message(ev: BotEvent) -> (res: Option<EventMessage>)
    ensures
        publishes(ev, res),
{
    match ev {
        BotEvent::PairingQrCode { code } => Some(
            EventMessage::event(EventType::PairQr, Payload::PairQr { code }),
        ),
        BotEvent::PairingCode { code, timeout_secs } => Some(
            EventMessage::event(EventType::PairCode, Payload::PairCode { code, expires_in: timeout_secs }),
        ),
        BotEvent::PairSuccess => Some(EventMessage::event(EventType::PairSuccess, Payload::Empty {  })),
        BotEvent::PairError => Some(
            EventMessage::event(
                EventType::PairError,
                Payload::PairError { reason: String::from_str("Pairing failed") },
            ),
        ),
        BotEvent::LoggedOut => Some(EventMessage::event(EventType::LoggedOut, Payload::Empty {  })),
        BotEvent::Disconnected => Some(EventMessage::event(EventType::Disconnected, Payload::Empty {  })),
        BotEvent::Message { text, from, message_id } => {
            let text = match text {
                Some(t) => t,
                None => String::new(),
            };
            Some(EventMessage::event(EventType::Message, Payload::IncomingMessage { from, text, message_id }))
        },
        BotEvent::Other => None,
    }
}

/// Every message published for a session event answers no request, and its
/// kind agrees with the shape of its payload.
pub proof fn published_events_are_well_formed(ev: BotEvent, m: EventMessage)
    requires
        publishes(ev, Some(m)),
    ensures
        m.id is None,
        kind_matches_payload(m.kind, m.payload),
{
}

/// Who revokes a message: its own sender, or an admin on behalf of its original sender.
#[derive(Debug, Clone, PartialEq, Eq)]
pub enum RevokeBy {
    Sender,
    Admin { original_sender: String },
}

/// What the session is asked to do for one control request. Chat addresses are
/// still text here; they are parsed as JIDs when the command is carried out.
#[derive(Debug, Clone, PartialEq, Eq)]
pub enum ClientCommand {
    /// Send `text` to `to`, quoting the message with the given id and sender when
    /// both are known.
    SendText { to: String, text: String, quote: Option<(String, String)> },
    SendReaction { to: String, message_id: String, sender: Option<String>, emoji: String },
    EditMessage { to: String, message_id: String, new_text: String },
    RevokeMessage { to: String, message_id: String, revoke: RevokeBy },
    ReportStatus,
    Disconnect,
    Logout,
}

/// `res` is what the session does for a control request of kind `kind` with body `payload`.
pub open spec fn plans(kind: ControlType, payload: Payload, res: Option<ClientCommand>) -> bool {
    match kind {
        ControlType::SendMessage => match payload {
            Payload::SendMessage { to, text, quote_id, quote_sender } => res == Some(
                ClientCommand::SendText {
                    to,
                    text,
                    quote: match (quote_id, quote_sender) {
                        (Some(q), Some(s)) => Some((q, s)),
                        _ => None,
                    },
                },
            ),
            _ => res is None,
        },
        ControlType::SendReaction => match payload {
            Payload::SendReaction { to, message_id, sender, emoji } => res == Some(
                ClientCommand::SendReaction { to, message_id, sender, emoji },
            ),
            _ => res is None,
        },
        ControlType::EditMessage => match payload {
            Payload::EditMessage { to, message_id, new_text } => res == Some(
                ClientCommand::EditMessage { to, message_id, new_text },
            ),
            _ => res is None,
        },
        ControlType::RevokeMessage => match payload {
            Payload::RevokeMessage { to, message_id, original_sender } => res == Some(
                ClientCommand::RevokeMessage {
                    to,
                    message_id,
                    revoke: match original_sender {
                        Some(s) => RevokeBy::Admin { original_sender: s },
                        None => RevokeBy::Sender,
                    },
                },
            ),
            _ => res is None,
        },
        ControlType::GetStatus => res == Some(ClientCommand::ReportStatus),
        ControlType::Disconnect => res == Some(ClientCommand::Disconnect),
        ControlType::Logout => res == Some(ClientCommand::Logout),
    }
}

/// The command for a control request: sending, reacting, editing and revoking
/// need the matching payload (a request whose payload does not match is dropped);
/// status, disconnect and logout ignore the payload.
pub fn plan_control(ctrl: ControlMessage) -> (res: Option<ClientCommand>)
    ensures
        plans(ctrl.kind, ctrl.payload, res),
{
    match ctrl.kind {
        ControlType::SendMessage => match ctrl.payload {
            Payload::SendMessage { to, text, quote_id, quote_sender } => {
                let quote = match (quote_id, quote_sender) {
                    (Some(q), Some(s)) => Some((q, s)),
                    _ => None,
                };
                Some(ClientCommand::SendText { to, text, quote })
            },
            _ => None,
        },
        ControlType::SendReaction => match ctrl.payload {
            Payload::SendReaction { to, message_id, sender, emoji } => Some(
                ClientCommand::SendReaction { to, message_id, sender, emoji },
            ),
            _ => None,
        },
        ControlType::EditMessage => match ctrl.payload {
            Payload::EditMessage { to, message_id, new_text } => Some(
                ClientCommand::EditMessage { to, message_id, new_text },
            ),
            _ => None,
        },
        ControlType::RevokeMessage => match ctrl.payload {
            Payload::RevokeMessage { to, message_id, original_sender } => {
                let revoke = match original_sender {
                    Some(s) => RevokeBy::Admin { original_sender: s },
                    None => RevokeBy::Sender,
                };
                Some(ClientCommand::RevokeMessage { to, message_id, revoke })
            },
            _ => None,
        },
        ControlType::GetStatus => Some(ClientCommand::ReportStatus),
        ControlType::Disconnect => Some(ClientCommand::Disconnect),
        ControlType::Logout => Some(ClientCommand::Logout),
    }
}


/// Who revokes a message, with the original sender's address parsed.
#[derive(Debug)]
pub enum Revoke {
    Sender,
    Admin(Jid),
}

/// A command ready to be carried out: its chat addresses are parsed.
#[derive(Debug)]
pub enum Command {
    SendText { to: Jid, text: String, quote: Option<(String, String)> },
    /// `chat` is the target chat as text, which the reacted-to message's key names.
    SendReaction { to: Jid, chat: String, message_id: String, sender: Option<String>, emoji: String },
    EditMessage { to: Jid, message_id: String, new_text: String },
    RevokeMessage { to: Jid, message_id: String, revoke: Revoke },
    ReportStatus,
    Disconnect,
    Logout,
}

/// Why a command cannot be carried out.
#[derive(Debug)]
pub enum CommandError {
    /// The target chat is no valid address.
    InvalidTarget { to: String, cause: JidError },
    /// The original sender named for an admin revoke is no valid address.
    InvalidOriginalSender { original_sender: String, cause: JidError },
}

/// `res` is the outcome of parsing the addresses of `cmd`: the target chat first,
/// then, for an admin revoke, the original sender.
pub open spec fn resolves(cmd: ClientCommand, res: Result<Command, CommandError>) -> bool {
    match cmd {
        ClientCommand::SendText { to, text, quote } => match parsed_jid(to@) {
            Ok(j) => res == Ok::<Command, CommandError>(Command::SendText { to: j, text, quote }),
            Err(e) => res == Err::<Command, CommandError>(CommandError::InvalidTarget { to, cause: e }),
        },
        ClientCommand::SendReaction { to, message_id, sender, emoji } => match parsed_jid(to@) {
            Ok(j) => res == Ok::<Command, CommandError>(
                Command::SendReaction { to: j, chat: to, message_id, sender, emoji },
            ),
            Err(e) => res == Err::<Command, CommandError>(CommandError::InvalidTarget { to, cause: e }),
        },
        ClientCommand::EditMessage { to, message_id, new_text } => match parsed_jid(to@) {
            Ok(j) => res == Ok::<Command, CommandError>(
                Command::EditMessage { to: j, message_id, new_text },
            ),
            Err(e) => res == Err::<Command, CommandError>(CommandError::InvalidTarget { to, cause: e }),
        },
        ClientCommand::RevokeMessage { to, message_id, revoke } => match parsed_jid(to@) {
            Ok(j) => match revoke {
                RevokeBy::Sender => res == Ok::<Command, CommandError>(
                    Command::RevokeMessage { to: j, message_id, revoke: Revoke::Sender },
                ),
                RevokeBy::Admin { original_sender } => match parsed_jid(original_sender@) {
                    Ok(a) => res == Ok::<Command, CommandError>(
                        Command::RevokeMessage { to: j, message_id, revoke: Revoke::Admin(a) },
                    ),
                    Err(e) => res == Err::<Command, CommandError>(
                        CommandError::InvalidOriginalSender { original_sender, cause: e },
                    ),
                },
            },
            Err(e) => res == Err::<Command, CommandError>(CommandError::InvalidTarget { to, cause: e }),
        },
        ClientCommand::ReportStatus => res == Ok::<Command, CommandError>(Command::ReportStatus),
        ClientCommand::Disconnect => res == Ok::<Command, CommandError>(Command::Disconnect),
        ClientCommand::Logout => res == Ok::<Command, CommandError>(Command::Logout),
    }
}

/// Parses the chat addresses of a command, as WhatsApp's client needs them;
/// a command with an address that does not parse is refused, with the reason.
pub fn resolve_command(cmd: ClientCommand) -> (res: Result<Command, CommandError>)
    ensures
        resolves(cmd, res),
{
    match cmd {
        ClientCommand::SendText { to, text, quote } => match parse_jid(to.as_str()) {
            Ok(j) => Ok(Command::SendText { to: j, text, quote }),
            Err(e) => Err(CommandError::InvalidTarget { to, cause: e }),
        },
        ClientCommand::SendReaction { to, message_id, sender, emoji } => match parse_jid(to.as_str()) {
            Ok(j) => Ok(Command::SendReaction { to: j, chat: to, message_id, sender, emoji }),
            Err(e) => Err(CommandError::InvalidTarget { to, cause: e }),
        },
        ClientCommand::EditMessage { to, message_id, new_text } => match parse_jid(to.as_str()) {
            Ok(j) => Ok(Command::EditMessage { to: j, message_id, new_text }),
            Err(e) => Err(CommandError::InvalidTarget { to, cause: e }),
        },
        ClientCommand::RevokeMessage { to, message_id, revoke } => match parse_jid(to.as_str()) {
            Ok(j) => match revoke {
                RevokeBy::Sender => Ok(Command::RevokeMessage { to: j, message_id, revoke: Revoke::Sender }),
                RevokeBy::Admin { original_sender } => match parse_jid(original_sender.as_str()) {
                    Ok(a) => Ok(Command::RevokeMessage { to: j, message_id, revoke: Revoke::Admin(a) }),
                    Err(e) => Err(CommandError::InvalidOriginalSender { original_sender, cause: e }),
                },
            },
            Err(e) => Err(CommandError::InvalidTarget { to, cause: e }),
        },
        ClientCommand::ReportStatus => Ok(Command::ReportStatus),
        ClientCommand::Disconnect => Ok(Command::Disconnect),
        ClientCommand::Logout => Ok(Command::Logout),
    }
}


/// Each session event is published under its own kind: the QR code as `PairQr`,
/// the pairing code as `PairCode`, pairing success and failure, logout and
/// disconnection as themselves, chat messages as `Message`; other events are not
/// published.
pub proof fn each_event_is_published_under_its_own_kind(ev: BotEvent, res: Option<EventMessage>)
    requires
        publishes(ev, res),
    ensures
        res is None <==> ev is Other,
        ev is PairingQrCode ==> res->Some_0.kind == EventType::PairQr,
        ev is PairingCode ==> res->Some_0.kind == EventType::PairCode,
        ev is PairSuccess ==> res->Some_0.kind == EventType::PairSuccess,
        ev is PairError ==> res->Some_0.kind == EventType::PairError,
        ev is LoggedOut ==> res->Some_0.kind == EventType::LoggedOut,
        ev is Disconnected ==> res->Some_0.kind == EventType::Disconnected,
        ev is Message ==> res->Some_0.kind == EventType::Message,
{
}

/// Two published messages of the same kind come from session events of the same
/// sort: distinct sorts of events are told apart by their kind.
pub proof fn distinct_events_publish_distinct_kinds(
    e1: BotEvent,
    m1: EventMessage,
    e2: BotEvent,
    m2: EventMessage,
)
    requires
        publishes(e1, Some(m1)),
        publishes(e2, Some(m2)),
        m1.kind == m2.kind,
    ensures
        e1 is PairingQrCode <==> e2 is PairingQrCode,
        e1 is PairingCode <==> e2 is PairingCode,
        e1 is PairSuccess <==> e2 is PairSuccess,
        e1 is PairError <==> e2 is PairError,
        e1 is LoggedOut <==> e2 is LoggedOut,
        e1 is Disconnected <==> e2 is Disconnected,
        e1 is Message <==> e2 is Message,
{
    each_event_is_published_under_its_own_kind(e1, Some(m1));
    each_event_is_published_under_its_own_kind(e2, Some(m2));
}

/// The QR code is published unchanged, answering no request.
pub proof fn qr_code_is_published_unchanged(code: String, res: Option<EventMessage>)
    requires
        publishes(BotEvent::PairingQrCode { code }, res),
    ensures
        res is Some,
        res->Some_0.id is None,
        res->Some_0.payload == (Payload::PairQr { code }),
{
}

/// The pairing code is published unchanged with its lifetime in seconds.
pub proof fn pairing_code_is_published_with_its_lifetime(
    code: String,
    timeout_secs: u64,
    res: Option<EventMessage>,
)
    requires
        publishes(BotEvent::PairingCode { code, timeout_secs }, res),
    ensures
        res is Some,
        res->Some_0.id is None,
        res->Some_0.payload == (Payload::PairCode { code, expires_in: timeout_secs }),
{
}

/// A chat message is published with its sender, its id, and its text (empty when it has none).
pub proof fn chat_messages_are_published_with_their_data(
    text: Option<String>,
    from: String,
    message_id: String,
    res: Option<EventMessage>,
)
    requires
        publishes(BotEvent::Message { text, from, message_id }, res),
    ensures
        res is Some,
        res->Some_0.id is None,
        res->Some_0.payload is IncomingMessage,
        res->Some_0.payload->IncomingMessage_from == from,
        res->Some_0.payload->IncomingMessage_message_id == message_id,
        text is Some ==> res->Some_0.payload->IncomingMessage_text@ == text->Some_0@,
        text is None ==> res->Some_0.payload->IncomingMessage_text@.len() == 0,
{
}

/// A send request becomes a send of the same text to the same chat, quoting
/// exactly when both the quoted id and its sender are given.
pub proof fn send_request_keeps_its_fields(
    to: String,
    text: String,
    quote_id: Option<String>,
    quote_sender: Option<String>,
    res: Option<ClientCommand>,
)
    requires
        plans(ControlType::SendMessage, Payload::SendMessage { to, text, quote_id, quote_sender }, res),
    ensures
        res is Some,
        res->Some_0 is SendText,
        res->Some_0->SendText_to == to,
        res->Some_0->SendText_text == text,
        res->Some_0->SendText_quote is Some <==> (quote_id is Some && quote_sender is Some),
        res->Some_0->SendText_quote is Some ==> Some(res->Some_0->SendText_quote->Some_0.0) == quote_id
            && Some(res->Some_0->SendText_quote->Some_0.1) == quote_sender,
{
}

/// A reaction request becomes a reaction with the same chat, message id, sender and emoji.
pub proof fn reaction_request_keeps_its_fields(
    to: String,
    message_id: String,
    sender: Option<String>,
    emoji: String,
    res: Option<ClientCommand>,
)
    requires
        plans(ControlType::SendReaction, Payload::SendReaction { to, message_id, sender, emoji }, res),
    ensures
        res is Some,
        res->Some_0 is SendReaction,
        res->Some_0->SendReaction_to == to,
        res->Some_0->SendReaction_message_id == message_id,
        res->Some_0->SendReaction_sender == sender,
        res->Some_0->SendReaction_emoji == emoji,
{
}

/// An edit request becomes an edit of the same message in the same chat with the same new text.
pub proof fn edit_request_keeps_its_fields(
    to: String,
    message_id: String,
    new_text: String,
    res: Option<ClientCommand>,
)
    requires
        plans(ControlType::EditMessage, Payload::EditMessage { to, message_id, new_text }, res),
    ensures
        res is Some,
        res->Some_0 is EditMessage,
        res->Some_0->EditMessage_to == to,
        res->Some_0->EditMessage_message_id == message_id,
        res->Some_0->EditMessage_new_text == new_text,
{
}

/// A revoke request becomes a revoke of the same message in the same chat: by an
/// admin for the given original sender when one is named, else by its sender.
pub proof fn revoke_request_keeps_its_fields(
    to: String,
    message_id: String,
    original_sender: Option<String>,
    res: Option<ClientCommand>,
)
    requires
        plans(
            ControlType::RevokeMessage,
            Payload::RevokeMessage { to, message_id, original_sender },
            res,
        ),
    ensures
        res is Some,
        res->Some_0 is RevokeMessage,
        res->Some_0->RevokeMessage_to == to,
        res->Some_0->RevokeMessage_message_id == message_id,
        original_sender is None ==> res->Some_0->RevokeMessage_revoke == RevokeBy::Sender,
        original_sender is Some ==> res->Some_0->RevokeMessage_revoke == (RevokeBy::Admin {
            original_sender: original_sender->Some_0,
        }),
{
}

/// The command follows the request's kind; a send, reaction, edit or revoke whose
/// payload is of another shape plans nothing, and status, disconnect and logout
/// ignore the payload.
pub proof fn command_follows_request_kind(kind: ControlType, payload: Payload, res: Option<ClientCommand>)
    requires
        plans(kind, payload, res),
    ensures
        kind == ControlType::SendMessage ==> (res is Some <==> payload is SendMessage),
        kind == ControlType::SendMessage && res is Some ==> res->Some_0 is SendText,
        kind == ControlType::SendReaction ==> (res is Some <==> payload is SendReaction),
        kind == ControlType::SendReaction && res is Some ==> res->Some_0 is SendReaction,
        kind == ControlType::EditMessage ==> (res is Some <==> payload is EditMessage),
        kind == ControlType::EditMessage && res is Some ==> res->Some_0 is EditMessage,
        kind == ControlType::RevokeMessage ==> (res is Some <==> payload is RevokeMessage),
        kind == ControlType::RevokeMessage && res is Some ==> res->Some_0 is RevokeMessage,
        kind == ControlType::GetStatus ==> res == Some(ClientCommand::ReportStatus),
        kind == ControlType::Disconnect ==> res == Some(ClientCommand::Disconnect),
        kind == ControlType::Logout ==> res == Some(ClientCommand::Logout),
{
}

/// The chat a command is aimed at, if it has one.
pub open spec fn command_target(cmd: ClientCommand) -> Option<String> {
    match cmd {
        ClientCommand::SendText { to, .. } => Some(to),
        ClientCommand::SendReaction { to, .. } => Some(to),
        ClientCommand::EditMessage { to, .. } => Some(to),
        ClientCommand::RevokeMessage { to, .. } => Some(to),
        _ => None,
    }
}

/// A command whose target chat does not parse is refused, naming that chat and the
/// parser's reason.
pub proof fn unparsable_targets_are_refused(cmd: ClientCommand, to: String, res: Result<Command, CommandError>)
    requires
        resolves(cmd, res),
        command_target(cmd) == Some(to),
        parsed_jid(to@) is Err,
    ensures
        res is Err,
        res->Err_0 is InvalidTarget,
        res->Err_0->InvalidTarget_to == to,
        res->Err_0->InvalidTarget_cause == parsed_jid(to@)->Err_0,
{
}

/// Status, disconnect and logout have no address and are never refused.
pub proof fn commands_without_target_resolve(cmd: ClientCommand, res: Result<Command, CommandError>)
    requires
        resolves(cmd, res),
        command_target(cmd) is None,
    ensures
        cmd is ReportStatus ==> res == Ok::<Command, CommandError>(Command::ReportStatus),
        cmd is Disconnect ==> res == Ok::<Command, CommandError>(Command::Disconnect),
        cmd is Logout ==> res == Ok::<Command, CommandError>(Command::Logout),
{
}

/// Resolving a send whose target parses keeps its text and its quote, and aims it
/// at the parsed target.
pub proof fn resolved_send_keeps_text_and_quote(
    to: String,
    text: String,
    quote: Option<(String, String)>,
    res: Result<Command, CommandError>,
)
    requires
        resolves(ClientCommand::SendText { to, text, quote }, res),
        parsed_jid(to@) is Ok,
    ensures
        res is Ok,
        res->Ok_0 is SendText,
        res->Ok_0->SendText_to == parsed_jid(to@)->Ok_0,
        res->Ok_0->SendText_text == text,
        res->Ok_0->SendText_quote == quote,
{
}

/// Resolving a reaction whose target parses keeps the chat's text, the message id,
/// the sender and the emoji.
pub proof fn resolved_reaction_keeps_its_fields(
    to: String,
    message_id: String,
    sender: Option<String>,
    emoji: String,
    res: Result<Command, CommandError>,
)
    requires
        resolves(ClientCommand::SendReaction { to, message_id, sender, emoji }, res),
        parsed_jid(to@) is Ok,
    ensures
        res is Ok,
        res->Ok_0 is SendReaction,
        res->Ok_0->SendReaction_to == parsed_jid(to@)->Ok_0,
        res->Ok_0->chat == to,
        res->Ok_0->SendReaction_message_id == message_id,
        res->Ok_0->SendReaction_sender == sender,
        res->Ok_0->SendReaction_emoji == emoji,
{
}

/// Resolving an edit whose target parses keeps the message id and the new text.
pub proof fn resolved_edit_keeps_its_fields(
    to: String,
    message_id: String,
    new_text: String,
    res: Result<Command, CommandError>,
)
    requires
        resolves(ClientCommand::EditMessage { to, message_id, new_text }, res),
        parsed_jid(to@) is Ok,
    ensures
        res is Ok,
        res->Ok_0 is EditMessage,
        res->Ok_0->EditMessage_to == parsed_jid(to@)->Ok_0,
        res->Ok_0->EditMessage_message_id == message_id,
        res->Ok_0->new_text == new_text,
{
}

/// Resolving a sender's revoke whose target parses keeps the message id and stays a sender's revoke.
pub proof fn resolved_sender_revoke_keeps_its_fields(
    to: String,
    message_id: String,
    res: Result<Command, CommandError>,
)
    requires
        resolves(ClientCommand::RevokeMessage { to, message_id, revoke: RevokeBy::Sender }, res),
        parsed_jid(to@) is Ok,
    ensures
        res is Ok,
        res->Ok_0 is RevokeMessage,
        res->Ok_0->RevokeMessage_to == parsed_jid(to@)->Ok_0,
        res->Ok_0->RevokeMessage_message_id == message_id,
        res->Ok_0->RevokeMessage_revoke is Sender,
{
}

/// Resolving an admin's revoke whose target parses carries the parsed original
/// sender, or is refused with that sender's text and the parser's reason.
pub proof fn resolved_admin_revoke_parses_the_original_sender(
    to: String,
    message_id: String,
    original_sender: String,
    res: Result<Command, CommandError>,
)
    requires
        resolves(
            ClientCommand::RevokeMessage { to, message_id, revoke: RevokeBy::Admin { original_sender } },
            res,
        ),
        parsed_jid(to@) is Ok,
    ensures
        parsed_jid(original_sender@) is Ok ==> res is Ok && res->Ok_0 is RevokeMessage
            && res->Ok_0->RevokeMessage_to == parsed_jid(to@)->Ok_0
            && res->Ok_0->RevokeMessage_message_id == message_id
            && res->Ok_0->RevokeMessage_revoke == Revoke::Admin(parsed_jid(original_sender@)->Ok_0),
        parsed_jid(original_sender@) is Err ==> res is Err && res->Err_0 is InvalidOriginalSender
            && res->Err_0->original_sender == original_sender
            && res->Err_0->InvalidOriginalSender_cause == parsed_jid(original_sender@)->Err_0,
{
}

} // verus!
