use vstd::prelude::*;
use crate::cli::{CliArgs, ClientType, opt_view};

verus! {

/// The port chosen from the option's and the environment's values.
pub open spec fn chosen_port(cli_port: Option<Seq<char>>, env_port: Option<Seq<char>>) -> Seq<char> {
    match (cli_port, env_port) {
        (Some(p), _) => p,
        (None, Some(p)) => p,
        (None, None) => "3000"@,
    }
}

/// The session directory chosen from the option's value.
pub open spec fn chosen_auth_dir(auth_dir: Option<Seq<char>>) -> Seq<char> {
    match auth_dir {
        Some(d) => d,
        None => "auth"@,
    }
}

/// The database path of `session` in directory `dir`.
pub open spec fn db_path_for(dir: Seq<char>, session: Seq<char>) -> Seq<char> {
    dir + "/"@ + session + ".db"@
}

/// The files of the database at `db`.
pub open spec fn files_for(db: Seq<char>) -> Seq<Seq<char>> {
    seq![db, db + "-shm"@, db + "-wal"@]
}

/// The listening address for `port`.
pub open spec fn address_for(port: Seq<char>) -> Seq<char> {
    "0.0.0.0:"@ + port
}

/// The port to listen on: the `--port` option, else the `PORT` environment
/// variable, else `3000`.
pub fn resolve_port(cli_port: Option<String>, env_port: Option<String>) -> (res: String)
    ensures
        res@ == chosen_port(opt_view(cli_port), opt_view(env_port)),
        res@ == match (opt_view(cli_port), opt_view(env_port)) {
            (Some(p), _) => p,
            (None, Some(p)) => p,
            (None, None) => "3000"@,
        },
{
    match cli_port {
        Some(p) => p,
        None => match env_port {
            Some(p) => p,
            None => String::from_str("3000"),
        },
    }
}

/// The directory that holds session files: the `--auth-dir` option, else `auth`.
pub fn resolve_auth_dir(auth_dir: Option<String>) -> (res: String)
    ensures
        res@ == chosen_auth_dir(opt_view(auth_dir)),
        res@ == match opt_view(auth_dir) {
            Some(d) => d,
            None => "auth"@,
        },
{
    match auth_dir {
        Some(d) => d,
        None => String::from_str("auth"),
    }
}

/// The session's database file: `<auth_dir>/<session>.db`.
pub fn session_db_path(auth_dir: &str, session: &str) -> (res: String)
    ensures
        res@ == db_path_for(auth_dir@, session@),
        res@ == auth_dir@ + "/"@ + session@ + ".db"@,
{
    let mut p = String::from_str(auth_dir);
    p.append("/");
    p.append(session);
    p.append(".db");
    p
}

/// The files that make up a session's database, which a logout removes: the
/// database itself and its `-shm` and `-wal` companions.
pub fn session_files(db_path: &str) -> (res: Vec<String>)
    ensures
        res@.map_values(|f: String| f@) == files_for(db_path@),
        res@.len() == 3,
        res@[0]@ == db_path@,
        res@[1]@ == db_path@ + "-shm"@,
        res@[2]@ == db_path@ + "-wal"@,
{
    let mut files: Vec<String> = Vec::new();
    files.push(String::from_str(db_path));
    let mut shm = String::from_str(db_path);
    shm.append("-shm");
    files.push(shm);
    let mut wal = String::from_str(db_path);
    wal.append("-wal");
    files.push(wal);
    files
}

/// The address the HTTP/WebSocket server binds: every interface, on `port`.
pub fn listen_address(port: &str) -> (res: String)
    ensures
        res@ == address_for(port@),
        res@ == "0.0.0.0:"@ + port@,
{
    let mut a = String::from_str("0.0.0.0:");
    a.append(port);
    a
}

/// A request for a pairing code, made when `--pair` gives a phone number.
#[derive(Debug, Clone, PartialEq, Eq)]
pub struct PairRequest {
    pub phone_number: String,
    pub show_push_notification: bool,
    /// Pair as a Chrome companion (only the Chrome client type does); the others
    /// name no companion platform.
    pub chrome_companion: bool,
}

/// `res` is the pairing-code request for the options `cli`.
pub open spec fn requests_pairing(cli: CliArgs, res: Option<PairRequest>) -> bool {
    match cli.pair {
        Some(phone) => res matches Some(r) && r.phone_number@ == phone@ && r.show_push_notification
            && r.chrome_companion == (cli.client == ClientType::Chrome),
        None => res is None,
    }
}

/// The pairing-code request for these options, if `--pair` was given.
pub fn pair_request(cli: &CliArgs) -> (res: Option<PairRequest>)
    ensures
        requests_pairing(*cli, res),
        match cli.pair {
            Some(phone) => res matches Some(r) && r.phone_number@ == phone@
                && r.show_push_notification
                && r.chrome_companion == (cli.client == ClientType::Chrome),
            None => res is None,
        },
{
    match &cli.pair {
        Some(phone) => Some(PairRequest {
            phone_number: phone.clone(),
            show_push_notification: true,
            chrome_companion: match cli.client {
                ClientType::Chrome => true,
                ClientType::Android => false,
                ClientType::Ios => false,
            },
        }),
        None => None,
    }
}

/// The client profile announced to WhatsApp, with the OS version it claims.
#[derive(Debug, Clone, PartialEq, Eq)]
pub enum Profile {
    Web,
    Android { version: String },
    Ios { version: String },
}

/// `res` is the profile announced for the client type `client`.
pub open spec fn profile_for(client: ClientType, res: Profile) -> bool {
    match client {
        ClientType::Chrome => res == Profile::Web,
        ClientType::Android => res matches Profile::Android { version } && version@ == "16"@,
        ClientType::Ios => res matches Profile::Ios { version } && version@ == "17"@,
    }
}

/// The profile for a client type: the web client, Android 16 or iOS 17.
pub fn client_profile(client: ClientType) -> (res: Profile)
    ensures
        profile_for(client, res),
        match client {
            ClientType::Chrome => res == Profile::Web,
            ClientType::Android => res matches Profile::Android { version } && version@ == "16"@,
            ClientType::Ios => res matches Profile::Ios { version } && version@ == "17"@,
        },
{
    match client {
        ClientType::Chrome => Profile::Web,
        ClientType::Android => Profile::Android { version: String::from_str("16") },
        ClientType::Ios => Profile::Ios { version: String::from_str("17") },
    }
}


/// The command-line port wins over the environment's, which wins over `3000`.
pub proof fn port_precedence(cli_port: Option<Seq<char>>, env_port: Option<Seq<char>>)
    ensures
        cli_port is Some ==> chosen_port(cli_port, env_port) == cli_port->Some_0,
        cli_port is None && env_port is Some ==> chosen_port(cli_port, env_port) == env_port->Some_0,
        cli_port is None && env_port is None ==> chosen_port(cli_port, env_port) == "3000"@,
{
}

/// A given session directory is used as it is; without one, `auth`.
pub proof fn auth_dir_default(auth_dir: Option<Seq<char>>)
    ensures
        auth_dir is Some ==> chosen_auth_dir(auth_dir) == auth_dir->Some_0,
        auth_dir is None ==> chosen_auth_dir(auth_dir) == "auth"@,
{
}

/// The database lies directly in the session directory: the path is the directory,
/// a `/`, the session's name and `.db`, in that order.
pub proof fn db_path_lies_in_the_directory(dir: Seq<char>, session: Seq<char>)
    ensures
        db_path_for(dir, session).len() == dir.len() + session.len() + 4,
        db_path_for(dir, session).subrange(0, dir.len() as int) == dir,
        db_path_for(dir, session)[dir.len() as int] == '/',
        db_path_for(dir, session).subrange((dir.len() + 1) as int, (dir.len() + 1 + session.len()) as int) == session,
        db_path_for(dir, session).subrange((dir.len() + 1 + session.len()) as int, (dir.len() + session.len() + 4) as int)
            == seq!['.', 'd', 'b'],
{
    reveal_strlit("/");
    reveal_strlit(".db");
    let p = db_path_for(dir, session);
    assert(p.subrange(0, dir.len() as int) =~= dir);
    assert(p.subrange((dir.len() + 1) as int, (dir.len() + 1 + session.len()) as int) =~= session);
    assert(p.subrange((dir.len() + 1 + session.len()) as int, (dir.len() + session.len() + 4) as int) =~= seq!['.', 'd', 'b']);
}

/// A logout removes three files, each named by the database path: the database
/// itself, then the path with `-shm`, then with `-wal`.
pub proof fn session_files_extend_the_database_path(db: Seq<char>)
    ensures
        files_for(db).len() == 3,
        files_for(db)[0] == db,
        files_for(db)[1] == db + seq!['-', 's', 'h', 'm'],
        files_for(db)[2] == db + seq!['-', 'w', 'a', 'l'],
        forall|i: int| 0 <= i < 3 ==> (#[trigger] files_for(db)[i]).subrange(0, db.len() as int) == db,
{
    reveal_strlit("-shm");
    reveal_strlit("-wal");
    assert("-shm"@ =~= seq!['-', 's', 'h', 'm']);
    assert("-wal"@ =~= seq!['-', 'w', 'a', 'l']);
    assert forall|i: int| 0 <= i < 3 implies (#[trigger] files_for(db)[i]).subrange(0, db.len() as int) == db by {
        assert(files_for(db)[i].subrange(0, db.len() as int) =~= db);
    }
}

/// The server listens on every interface: the address is `0.0.0.0:` followed by the port.
pub proof fn address_is_every_interface(port: Seq<char>)
    ensures
        address_for(port) == seq!['0', '.', '0', '.', '0', '.', '0', ':'] + port,
{
    reveal_strlit("0.0.0.0:");
    assert("0.0.0.0:"@ =~= seq!['0', '.', '0', '.', '0', '.', '0', ':']);
}

/// A pairing code is requested exactly when `--pair` gives a phone number; the
/// request is for that number, shows a push notification on the phone, and pairs
/// as a Chrome companion exactly for the Chrome client type.
pub proof fn pairing_is_requested_for_the_given_number(cli: CliArgs, res: Option<PairRequest>)
    requires
        requests_pairing(cli, res),
    ensures
        res is Some <==> cli.pair is Some,
        res is Some ==> res->Some_0.phone_number@ == cli.pair->Some_0@,
        res is Some ==> res->Some_0.show_push_notification,
        res is Some ==> (res->Some_0.chrome_companion <==> cli.client == ClientType::Chrome),
{
}

/// Each client type announces its own profile: Chrome the web client, Android an
/// Android phone on version 16, iOS an iPhone on version 17.
pub proof fn each_client_type_has_its_own_profile(client: ClientType, res: Profile)
    requires
        profile_for(client, res),
    ensures
        client == ClientType::Chrome <==> res is Web,
        client == ClientType::Android <==> res is Android,
        client == ClientType::Ios <==> res is Ios,
        res is Android ==> res->Android_version@ == seq!['1', '6'],
        res is Ios ==> res->Ios_version@ == seq!['1', '7'],
{
    reveal_strlit("16");
    reveal_strlit("17");
    assert("16"@ =~= seq!['1', '6']);
    assert("17"@ =~= seq!['1', '7']);
}

} // verus!
