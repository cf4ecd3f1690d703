use zevbot::cli::{CliArgs, ClientType};
use zevbot::session::{
    client_profile, listen_address, pair_request, resolve_auth_dir, resolve_port, session_db_path,
    session_files, PairRequest, Profile,
};

fn args(pair: Option<&str>, client: ClientType) -> CliArgs {
    CliArgs {
        session: "s".to_string(),
        pair: pair.map(|p| p.to_string()),
        port: None,
        auth_dir: None,
        qrcode: false,
        logout: false,
        debug: false,
        client,
    }
}

#[test]
fn port_precedence() {
    assert_eq!(resolve_port(Some("1".into()), Some("2".into())), "1");
    assert_eq!(resolve_port(None, Some("2".into())), "2");
    assert_eq!(resolve_port(None, None), "3000");
}

#[test]
fn auth_dir_default() {
    assert_eq!(resolve_auth_dir(None), "auth");
    assert_eq!(resolve_auth_dir(Some("/var/wa".into())), "/var/wa");
}

#[test]
fn db_path_and_files() {
    let p = session_db_path("auth", "5511");
    assert_eq!(p, "auth/5511.db");
    assert_eq!(session_files(&p), vec!["auth/5511.db", "auth/5511.db-shm", "auth/5511.db-wal"]);
}

#[test]
fn listen_on_all_interfaces() {
    assert_eq!(listen_address("3000"), "0.0.0.0:3000");
}

#[test]
fn pairing_only_with_a_phone_number() {
    assert_eq!(pair_request(&args(None, ClientType::Chrome)), None);
    assert_eq!(
        pair_request(&args(Some("5511"), ClientType::Chrome)),
        Some(PairRequest { phone_number: "5511".into(), show_push_notification: true, chrome_companion: true })
    );
    assert_eq!(
        pair_request(&args(Some("5511"), ClientType::Ios)),
        Some(PairRequest { phone_number: "5511".into(), show_push_notification: true, chrome_companion: false })
    );
    assert_eq!(pair_request(&args(Some("1"), ClientType::Android)).map(|r| r.chrome_companion), Some(false));
}

#[test]
fn profiles() {
    assert_eq!(client_profile(ClientType::Chrome), Profile::Web);
    assert_eq!(client_profile(ClientType::Android), Profile::Android { version: "16".into() });
    assert_eq!(client_profile(ClientType::Ios), Profile::Ios { version: "17".into() });
}
