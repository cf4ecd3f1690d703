use vstd::prelude::*;

verus! {

/// The WhatsApp client that the bot presents itself as.
#[derive(Debug, Clone, Copy, PartialEq, Eq, Structural)]
pub enum ClientType {
    Chrome,
    Android,
    Ios,
}

/// A character folded to ASCII lower case, as a code point: `A`..`Z` become
/// `a`..`z`, every other character stays as it is.
pub open spec fn folded_code(c: char) -> int {
    if 'A' <= c && c <= 'Z' {
        c as int + 32
    } else {
        c as int
    }
}

/// `s` spells the lower-case word `word` when ASCII letters are folded to lower case.
///
/// For the words this library matches (`chrome`, `android`, `ios`, which hold no `k`),
/// this is the same as comparing Unicode lower case with the word: no character
/// other than an ASCII one lowers to one of their letters.
pub open spec fn spells_folded(s: Seq<char>, word: Seq<char>) -> bool {
    &&& s.len() == word.len()
    &&& forall|i: int| 0 <= i < s.len() ==> folded_code(#[trigger] s[i]) == word[i] as int
}

/// The client type that a command-line name selects, if any.
pub open spec fn client_type_named(s: Seq<char>) -> Option<ClientType> {
    if spells_folded(s, "chrome"@) {
        Some(ClientType::Chrome)
    } else if spells_folded(s, "android"@) {
        Some(ClientType::Android)
    } else if spells_folded(s, "ios"@) {
        Some(ClientType::Ios)
    } else {
        None
    }
}

/// Whether `s` spells `word` once its ASCII letters are folded to lower case.
fn matches_folded(s: &str, word: &str) -> (res: bool)
    ensures
        res == spells_folded(s@, word@),
{
    let n = s.unicode_len();
    if n != word.unicode_len() {
        return false;
    }
    let mut i: usize = 0;
    while i < n
        invariant
            n == s@.len(),
            n == word@.len(),
            0 <= i <= n,
            forall|j: int| 0 <= j < i ==> folded_code(#[trigger] s@[j]) == word@[j] as int,
        decreases n - i,
    {
        let c = s.get_char(i);
        let w = word.get_char(i);
        let code: u32 = c as u32;
        let folded: u32 = if 65 <= code && code <= 90 {
            code + 32
        } else {
            code
        };
        if folded != w as u32 {
            assert(folded_code(s@[i as int]) != word@[i as int] as int);
            return false;
        }
        i = i + 1;
    }
    true
}

impl ClientType {
    /// The client type named by `s`, ignoring case: `chrome`, `android` or `ios`.
    pub fn from_str(s: &str) -> (res: Option<Self>)
        ensures
            res == client_type_named(s@),
    {
        if matches_folded(s, "chrome") {
            Some(ClientType::Chrome)
        } else if matches_folded(s, "android") {
            Some(ClientType::Android)
        } else if matches_folded(s, "ios") {
            Some(ClientType::Ios)
        } else {
            None
        }
    }
}

impl Default for ClientType {
    /// Chrome, the client type used when none is asked for.
    fn default() -> (res: Self)
        ensures
            res == ClientType::Chrome,
    {
        ClientType::Chrome
    }
}

/// The lower-case name of a client type on the command line.
pub open spec fn client_type_name(c: ClientType) -> Seq<char> {
    match c {
        ClientType::Chrome => "chrome"@,
        ClientType::Android => "android"@,
        ClientType::Ios => "ios"@,
    }
}

/// A word selects a client type exactly when it spells that type's own name,
/// ASCII case aside; and a name spells no other type's name.
pub proof fn client_type_is_selected_by_its_own_name(s: Seq<char>, c: ClientType)
    ensures
        client_type_named(s) == Some(c) <==> spells_folded(s, client_type_name(c)),
        client_type_named(s) is None <==> (!spells_folded(s, "chrome"@) && !spells_folded(
            s,
            "android"@,
        ) && !spells_folded(s, "ios"@)),
{
    reveal_strlit("chrome");
    reveal_strlit("android");
    reveal_strlit("ios");
}

/// Two names that agree once folded to ASCII lower case select the same client type.
pub proof fn client_type_name_ignores_case(s: Seq<char>, t: Seq<char>)
    requires
        s.len() == t.len(),
        forall|i: int| 0 <= i < s.len() ==> folded_code(#[trigger] s[i]) == folded_code(t[i]),
    ensures
        client_type_named(s) == client_type_named(t),
{
    assert forall|w: Seq<char>| spells_folded(s, w) == spells_folded(t, w) by {
        if spells_folded(s, w) {
            assert forall|i: int| 0 <= i < t.len() implies folded_code(#[trigger] t[i]) == w[i] as int by {
                assert(folded_code(s[i]) == folded_code(t[i]));
            }
        }
        if spells_folded(t, w) {
            assert forall|i: int| 0 <= i < s.len() implies folded_code(#[trigger] s[i]) == w[i] as int by {
                assert(folded_code(s[i]) == folded_code(t[i]));
            }
        }
    }
}


/// The options of one run of the bot, as given on the command line.
#[derive(Debug, Clone, PartialEq, Eq)]
pub struct CliArgs {
    pub session: String,
    pub pair: Option<String>,
    pub port: Option<String>,
    pub auth_dir: Option<String>,
    pub qrcode: bool,
    pub logout: bool,
    pub debug: bool,
    pub client: ClientType,
}

/// What the command line asks for.
#[derive(Debug, Clone, PartialEq, Eq)]
pub enum CliCommand {
    /// `-h` or `--help` was given: show the usage text and stop.
    Help,
    /// Run the bot with these options.
    Run(CliArgs),
}

/// Why a command line is refused.
#[derive(Debug, Clone, PartialEq, Eq)]
pub enum CliError {
    /// No `--session` flag followed by a value.
    MissingSession,
    /// `--client` names no known client type; the name is kept.
    UnknownClient(String),
}

/// The command-line words as character sequences.
pub open spec fn args_view(args: Seq<String>) -> Seq<Seq<char>> {
    args.map_values(|a: String| a@)
}

/// The view of an optional string.
pub open spec fn opt_view(o: Option<String>) -> Option<Seq<char>> {
    match o {
        Some(s) => Some(s@),
        None => None,
    }
}

/// `i` is the first position of `flag` among the words `a`.
pub open spec fn first_at(a: Seq<Seq<char>>, flag: Seq<char>, i: int) -> bool {
    &&& 0 <= i < a.len()
    &&& a[i] == flag
    &&& forall|j: int| 0 <= j < i ==> a[j] != flag
}

/// The word that follows the first occurrence of `flag`, if both exist.
pub open spec fn flag_value(a: Seq<Seq<char>>, flag: Seq<char>) -> Option<Seq<char>> {
    if a.contains(flag) {
        let i = choose|i: int| first_at(a, flag, i);
        if i + 1 < a.len() {
            Some(a[i + 1])
        } else {
            None
        }
    } else {
        None
    }
}

/// The words ask for the usage text.
pub open spec fn wants_help(a: Seq<Seq<char>>) -> bool {
    a.contains("-h"@) || a.contains("--help"@)
}

/// The client type chosen by the value of `--client`, if there is one: Chrome by default.
pub open spec fn client_choice(value: Option<Seq<char>>) -> Option<ClientType> {
    match value {
        None => Some(ClientType::Chrome),
        Some(name) => client_type_named(name),
    }
}

/// `cli` holds what the words `a` give, once the help flags, the session and the
/// client type have been checked.
pub open spec fn run_args_from(a: Seq<Seq<char>>, cli: CliArgs) -> bool {
    &&& flag_value(a, "--session"@) == Some(cli.session@)
    &&& opt_view(cli.pair) == flag_value(a, "--pair"@)
    &&& opt_view(cli.port) == flag_value(a, "--port"@)
    &&& opt_view(cli.auth_dir) == flag_value(a, "--auth-dir"@)
    &&& cli.qrcode == a.contains("--qrcode"@)
    &&& cli.logout == a.contains("--logout"@)
    &&& cli.debug == a.contains("--debug"@)
    &&& client_choice(flag_value(a, "--client"@)) == Some(cli.client)
}

/// `res` is what the command-line words `a` ask for: the usage text when a help
/// flag occurs; else a refusal when `--session` has no value or `--client` names no
/// known client type; else the options the words give.
pub open spec fn parses_to(a: Seq<Seq<char>>, res: Result<CliCommand, CliError>) -> bool {
    if wants_help(a) {
        res == Ok::<CliCommand, CliError>(CliCommand::Help)
    } else if flag_value(a, "--session"@) is None {
        res == Err::<CliCommand, CliError>(CliError::MissingSession)
    } else if client_choice(flag_value(a, "--client"@)) is None {
        res matches Err(CliError::UnknownClient(name)) && Some(name@) == flag_value(a, "--client"@)
    } else {
        res matches Ok(CliCommand::Run(cli)) && run_args_from(a, cli)
    }
}

/// The first position of `flag` among `args`, if it occurs.
fn find_arg(args: &Vec<String>, flag: &String) -> (res: Option<usize>)
    ensures
        match res {
            Some(i) => first_at(args_view(args@), flag@, i as int),
            None => !args_view(args@).contains(flag@),
        },
{
    let ghost a = args_view(args@);
    let mut i: usize = 0;
    while i < args.len()
        invariant
            a == args_view(args@),
            0 <= i <= args.len(),
            forall|j: int| 0 <= j < i ==> a[j] != flag@,
        decreases args.len() - i,
    {
        if args[i] == *flag {
            return Some(i);
        }
        i = i + 1;
    }
    assert forall|j: int| 0 <= j < a.len() implies a[j] != flag@ by {}
    None
}

/// Whether `flag` occurs among `args`.
fn has_arg(args: &Vec<String>, flag: &str) -> (res: bool)
    ensures
        res == args_view(args@).contains(flag@),
{
    let f = String::from_str(flag);
    match find_arg(args, &f) {
        Some(i) => {
            assert(args_view(args@)[i as int] == flag@);
            true
        },
        None => false,
    }
}

/// The word after the first occurrence of `flag` among `args`.
fn arg_value(args: &Vec<String>, flag: &str) -> (res: Option<String>)
    ensures
        opt_view(res) == flag_value(args_view(args@), flag@),
{
    let ghost a = args_view(args@);
    let f = String::from_str(flag);
    match find_arg(args, &f) {
        Some(i) => {
            assert(a.contains(flag@)) by {
                assert(a[i as int] == flag@);
            }
            let ghost k = choose|k: int| first_at(a, flag@, k);
            assert(first_at(a, flag@, i as int));
            assert(k == i) by {
                if k < i {
                    assert(a[k] == flag@);
                } else if k > i {
                    assert(a[i as int] == flag@);
                }
            }
            if i < args.len() - 1 {
                Some(args[i + 1].clone())
            } else {
                None
            }
        },
        None => None,
    }
}

impl CliArgs {
    /// Reads the command-line words (the program's name first): the usage text is
    /// asked for by `-h` or `--help` anywhere; otherwise `--session` must be followed
    /// by a value, `--client` (Chrome when absent) must name a known client type, and
    /// each valued flag takes the word after its first occurrence.
    pub fn parse_args(args: &Vec<String>) -> (res: Result<CliCommand, CliError>)
        ensures
            parses_to(args_view(args@), res),
            res matches Ok(CliCommand::Run(cli)) ==> {
                &&& cli.qrcode == args_view(args@).contains("--qrcode"@)
                &&& cli.logout == args_view(args@).contains("--logout"@)
                &&& cli.debug == args_view(args@).contains("--debug"@)
            },
    {
        if has_arg(args, "-h") || has_arg(args, "--help") {
            return Ok(CliCommand::Help);
        }
        let session = match arg_value(args, "--session") {
            Some(s) => s,
            None => return Err(CliError::MissingSession),
        };
        let client = match arg_value(args, "--client") {
            Some(name) => match ClientType::from_str(name.as_str()) {
                Some(c) => c,
                None => return Err(CliError::UnknownClient(name)),
            },
            None => ClientType::Chrome,
        };
        let pair = arg_value(args, "--pair");
        let port = arg_value(args, "--port");
        let auth_dir = arg_value(args, "--auth-dir");
        let qrcode = has_arg(args, "--qrcode");
        let logout = has_arg(args, "--logout");
        let debug = has_arg(args, "--debug");
        Ok(CliCommand::Run(CliArgs { session, pair, port, auth_dir, qrcode, logout, debug, client }))
    }
}


/// The word after a flag's first occurrence is that flag's value; a flag that
/// does not occur, or whose first occurrence is the last word, has none.
pub proof fn flag_value_is_word_after_first_occurrence(a: Seq<Seq<char>>, flag: Seq<char>, i: int)
    requires
        first_at(a, flag, i),
    ensures
        i + 1 < a.len() ==> flag_value(a, flag) == Some(a[i + 1]),
        i + 1 >= a.len() ==> flag_value(a, flag) is None,
{
    assert(a.contains(flag));
    let k = choose|k: int| first_at(a, flag, k);
    assert(first_at(a, flag, k));
    if k < i {
        assert(a[k] == flag);
    } else if k > i {
        assert(a[i] == flag);
    }
    assert(k == i);
}

/// A flag that does not occur has no value.
pub proof fn absent_flag_has_no_value(a: Seq<Seq<char>>, flag: Seq<char>)
    requires
        !a.contains(flag),
    ensures
        flag_value(a, flag) is None,
{
}

/// `-h` or `--help` anywhere on the command line asks for the usage text,
/// whatever else is there.
pub proof fn help_flag_always_wins(a: Seq<Seq<char>>, res: Result<CliCommand, CliError>)
    requires
        parses_to(a, res),
        a.contains("-h"@) || a.contains("--help"@),
    ensures
        res == Ok::<CliCommand, CliError>(CliCommand::Help),
{
}

/// Without a help flag and without the word `--session`, the command line is
/// refused for its missing session.
pub proof fn session_flag_is_required(a: Seq<Seq<char>>, res: Result<CliCommand, CliError>)
    requires
        parses_to(a, res),
        !a.contains("-h"@),
        !a.contains("--help"@),
        !a.contains("--session"@),
    ensures
        res == Err::<CliCommand, CliError>(CliError::MissingSession),
{
}

/// The switches of a run are set exactly when their own words occur: `--qrcode`
/// sets `qrcode`, `--logout` sets `logout`, `--debug` sets `debug`.
pub proof fn switches_follow_their_words(a: Seq<Seq<char>>, res: Result<CliCommand, CliError>, cli: CliArgs)
    requires
        parses_to(a, res),
        res == Ok::<CliCommand, CliError>(CliCommand::Run(cli)),
    ensures
        cli.qrcode <==> a.contains("--qrcode"@),
        cli.logout <==> a.contains("--logout"@),
        cli.debug <==> a.contains("--debug"@),
{
}

/// A run takes each valued option from the word after the first occurrence of its
/// own flag: `--session`, `--pair`, `--port`, `--auth-dir`.
pub proof fn options_take_the_word_after_their_flag(
    a: Seq<Seq<char>>,
    res: Result<CliCommand, CliError>,
    cli: CliArgs,
    i: int,
)
    requires
        parses_to(a, res),
        res == Ok::<CliCommand, CliError>(CliCommand::Run(cli)),
        0 <= i < a.len() - 1,
        forall|j: int| 0 <= j < i ==> a[j] != a[i],
    ensures
        a[i] == "--session"@ ==> cli.session@ == a[i + 1],
        a[i] == "--pair"@ ==> opt_view(cli.pair) == Some(a[i + 1]),
        a[i] == "--port"@ ==> opt_view(cli.port) == Some(a[i + 1]),
        a[i] == "--auth-dir"@ ==> opt_view(cli.auth_dir) == Some(a[i + 1]),
{
    flag_value_is_word_after_first_occurrence(a, a[i], i);
}

/// A run without `--client` uses Chrome; with it, the client type that the word
/// after its first occurrence names.
pub proof fn client_defaults_to_chrome(a: Seq<Seq<char>>, res: Result<CliCommand, CliError>, cli: CliArgs)
    requires
        parses_to(a, res),
        res == Ok::<CliCommand, CliError>(CliCommand::Run(cli)),
    ensures
        !a.contains("--client"@) ==> cli.client == ClientType::Chrome,
        forall|i: int|
            #![trigger first_at(a, "--client"@, i)]
            first_at(a, "--client"@, i) && i + 1 < a.len() ==> client_type_named(a[i + 1]) == Some(
                cli.client,
            ),
{
    assert forall|i: int|
        #![trigger first_at(a, "--client"@, i)]
        first_at(a, "--client"@, i) && i + 1 < a.len() implies client_type_named(a[i + 1]) == Some(
        cli.client,
    ) by {
        flag_value_is_word_after_first_occurrence(a, "--client"@, i);
    }
}

/// Folding turns an ASCII capital into its small letter and leaves every other
/// character, small letters included, as it is.
pub proof fn folding_lowers_only_ascii_capitals(c: char)
    ensures
        'A' <= c && c <= 'Z' ==> folded_code(c) == c as int + ('a' as int - 'A' as int),
        'a' <= c && c <= 'z' ==> folded_code(c) == c as int,
        !('A' <= c && c <= 'Z') ==> folded_code(c) == c as int,
{
}

/// A run needs a known client type: when `--client` is followed by a word that
/// names none, the command line is refused with that word.
pub proof fn unknown_client_is_refused_with_its_name(a: Seq<Seq<char>>, res: Result<CliCommand, CliError>, i: int)
    requires
        parses_to(a, res),
        !a.contains("-h"@),
        !a.contains("--help"@),
        flag_value(a, "--session"@) is Some,
        first_at(a, "--client"@, i),
        i + 1 < a.len(),
        client_type_named(a[i + 1]) is None,
    ensures
        res is Err,
        res->Err_0 is UnknownClient,
        res->Err_0->UnknownClient_0@ == a[i + 1],
{
    flag_value_is_word_after_first_occurrence(a, "--client"@, i);
}

} // verus!
