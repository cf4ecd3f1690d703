use zevbot::cli::{CliArgs, CliCommand, CliError, ClientType};

fn words(ws: &[&str]) -> Vec<String> {
    ws.iter().map(|w| w.to_string()).collect()
}

fn run(ws: &[&str]) -> CliArgs {
    match CliArgs::parse_args(&words(ws)) {
        Ok(CliCommand::Run(c)) => c,
        other => panic!("expected a run, got {:?}", other),
    }
}

#[test]
fn client_type_names_ignore_case() {
    assert_eq!(ClientType::from_str("chrome"), Some(ClientType::Chrome));
    assert_eq!(ClientType::from_str("Chrome"), Some(ClientType::Chrome));
    assert_eq!(ClientType::from_str("ANDROID"), Some(ClientType::Android));
    assert_eq!(ClientType::from_str("iOS"), Some(ClientType::Ios));
    assert_eq!(ClientType::from_str("IoS"), ClientType::from_str("ios"));
}

#[test]
fn client_type_unknown_names() {
    assert_eq!(ClientType::from_str(""), None);
    assert_eq!(ClientType::from_str("firefox"), None);
    assert_eq!(ClientType::from_str("chrome "), None);
    assert_eq!(ClientType::from_str("chromes"), None);
    assert_eq!(ClientType::from_str("İos"), None);
}

#[test]
fn client_type_default_is_chrome() {
    assert_eq!(ClientType::default(), ClientType::Chrome);
}

#[test]
fn help_flag_wins_over_everything() {
    assert_eq!(CliArgs::parse_args(&words(&["zevBot", "-h"])), Ok(CliCommand::Help));
    assert_eq!(
        CliArgs::parse_args(&words(&["zevBot", "--client", "nokia", "--help"])),
        Ok(CliCommand::Help)
    );
}

#[test]
fn session_is_required() {
    assert_eq!(CliArgs::parse_args(&words(&["zevBot"])), Err(CliError::MissingSession));
    assert_eq!(
        CliArgs::parse_args(&words(&["zevBot", "--debug", "--session"])),
        Err(CliError::MissingSession)
    );
}

#[test]
fn unknown_client_is_refused_with_its_name() {
    assert_eq!(
        CliArgs::parse_args(&words(&["zevBot", "--session", "1", "--client", "nokia"])),
        Err(CliError::UnknownClient("nokia".to_string()))
    );
}

#[test]
fn missing_session_is_reported_before_unknown_client() {
    assert_eq!(
        CliArgs::parse_args(&words(&["zevBot", "--client", "nokia"])),
        Err(CliError::MissingSession)
    );
}

#[test]
fn minimal_command_line() {
    let c = run(&["zevBot", "--session", "5511999999999"]);
    assert_eq!(c.session, "5511999999999");
    assert_eq!(c.pair, None);
    assert_eq!(c.port, None);
    assert_eq!(c.auth_dir, None);
    assert!(!c.qrcode && !c.logout && !c.debug);
    assert_eq!(c.client, ClientType::Chrome);
}

#[test]
fn full_command_line() {
    let c = run(&[
        "zevBot", "--session", "s1", "--pair", "551188", "--port", "8080", "--auth-dir", "/tmp/a",
        "--client", "Android", "--qrcode", "--logout", "--debug",
    ]);
    assert_eq!(c.session, "s1");
    assert_eq!(c.pair.as_deref(), Some("551188"));
    assert_eq!(c.port.as_deref(), Some("8080"));
    assert_eq!(c.auth_dir.as_deref(), Some("/tmp/a"));
    assert!(c.qrcode && c.logout && c.debug);
    assert_eq!(c.client, ClientType::Android);
}

#[test]
fn first_occurrence_of_a_flag_counts() {
    let c = run(&["zevBot", "--session", "a", "--session", "b", "--port", "1", "--port", "2"]);
    assert_eq!(c.session, "a");
    assert_eq!(c.port.as_deref(), Some("1"));
}

#[test]
fn flag_value_is_the_next_word_even_if_it_is_a_flag() {
    let c = run(&["zevBot", "--session", "--debug"]);
    assert_eq!(c.session, "--debug");
    assert!(c.debug);
}

#[test]
fn trailing_valued_flag_has_no_value() {
    let c = run(&["zevBot", "--session", "s", "--pair"]);
    assert_eq!(c.pair, None);
}
