use whatsapp_rust::Jid;
use zevbot::bot::{resolve_command, ClientCommand, Command, CommandError, Revoke, RevokeBy};

fn s(x: &str) -> String {
    x.to_string()
}

fn jid(x: &str) -> Jid {
    x.parse::<Jid>().unwrap()
}

const PHONE: &str = "5511999999999@s.whatsapp.net";

#[test]
fn send_text_resolves_its_target() {
    match resolve_command(ClientCommand::SendText { to: s(PHONE), text: s("hi"), quote: None }) {
        Ok(Command::SendText { to, text, quote }) => {
            assert_eq!(to, jid(PHONE));
            assert_eq!(to.user.as_str(), "5511999999999");
            assert_eq!(text, "hi");
            assert_eq!(quote, None);
        },
        other => panic!("unexpected {:?}", other),
    }
}

#[test]
fn invalid_target_is_refused_with_the_text() {
    match resolve_command(ClientCommand::EditMessage { to: s("not-a-jid"), message_id: s("m"), new_text: s("n") }) {
        Err(CommandError::InvalidTarget { to, .. }) => assert_eq!(to, "not-a-jid"),
        other => panic!("unexpected {:?}", other),
    }
}

#[test]
fn reaction_keeps_the_chat_text() {
    let cmd = ClientCommand::SendReaction { to: s(PHONE), message_id: s("M"), sender: Some(s("x")), emoji: s("ok") };
    match resolve_command(cmd) {
        Ok(Command::SendReaction { to, chat, message_id, sender, emoji }) => {
            assert_eq!(to, jid(PHONE));
            assert_eq!(chat, PHONE);
            assert_eq!(message_id, "M");
            assert_eq!(sender.as_deref(), Some("x"));
            assert_eq!(emoji, "ok");
        },
        other => panic!("unexpected {:?}", other),
    }
}

#[test]
fn admin_revoke_parses_the_original_sender() {
    let cmd = ClientCommand::RevokeMessage {
        to: s("120363000000000000@g.us"),
        message_id: s("M"),
        revoke: RevokeBy::Admin { original_sender: s(PHONE) },
    };
    match resolve_command(cmd) {
        Ok(Command::RevokeMessage { revoke: Revoke::Admin(a), message_id, .. }) => {
            assert_eq!(a, jid(PHONE));
            assert_eq!(message_id, "M");
        },
        other => panic!("unexpected {:?}", other),
    }
    let cmd = ClientCommand::RevokeMessage {
        to: s(PHONE),
        message_id: s("M"),
        revoke: RevokeBy::Admin { original_sender: s("bogus") },
    };
    match resolve_command(cmd) {
        Err(CommandError::InvalidOriginalSender { original_sender, .. }) => assert_eq!(original_sender, "bogus"),
        other => panic!("unexpected {:?}", other),
    }
}

#[test]
fn target_is_checked_before_the_original_sender() {
    let cmd = ClientCommand::RevokeMessage {
        to: s("bad"),
        message_id: s("M"),
        revoke: RevokeBy::Admin { original_sender: s("bogus") },
    };
    assert!(matches!(resolve_command(cmd), Err(CommandError::InvalidTarget { .. })));
}

#[test]
fn sender_revoke_and_plain_commands() {
    let cmd = ClientCommand::RevokeMessage { to: s(PHONE), message_id: s("M"), revoke: RevokeBy::Sender };
    assert!(matches!(resolve_command(cmd), Ok(Command::RevokeMessage { revoke: Revoke::Sender, .. })));
    assert!(matches!(resolve_command(ClientCommand::ReportStatus), Ok(Command::ReportStatus)));
    assert!(matches!(resolve_command(ClientCommand::Disconnect), Ok(Command::Disconnect)));
    assert!(matches!(resolve_command(ClientCommand::Logout), Ok(Command::Logout)));
}
