//! The command-line interface: the commands and their arguments, as parsed
//! from the command line.

use vstd::prelude::*;
use crate::grammar::{ArgKind, ArgSpec, ArgV, CommandSpec, CommandV, args_view, lemma_commands_view};

verus! {

/// A parsed command line.
#[derive(Debug)]
pub struct Cli {
    /// Print raw JSON instead of YAML, for scripting.
    pub json: bool,
    pub command: Command,
}

/// The commands.
#[derive(Debug)]
pub enum Command {
    /// Search Product Hunt for products and launches.
    Search(SearchArgs),
    /// Scrape a Product Hunt URL (product page, launch, topic, or collection).
    Scrape(ScrapeArgs),
    /// Get current authenticated user context from Apify.
    Me(AuthArgs),
    /// Log in with an Apify API token.
    Login(LoginArgs),
    /// Manage Apify accounts and stored tokens.
    Accounts(AccountsCommand),
    /// Print the operating manual for an LLM agent driving this CLI.
    AgentReadme,
}

/// Arguments of `search`.
#[derive(Debug)]
pub struct SearchArgs {
    /// Search query (product name, category, or keyword).
    pub query: String,
    /// Maximum results to return (default 10).
    pub max: usize,
    /// Sort by: popular (default), newest.
    pub sort: String,
    /// Optional time frame filter: today, this-week, this-month, all-time.
    pub time_frame: Option<String>,
    /// Account to run against.
    pub account: Option<String>,
    /// Apify API token.
    pub api_key: Option<String>,
}

/// Arguments of `scrape`.
#[derive(Debug)]
pub struct ScrapeArgs {
    /// Product Hunt URL to scrape.
    pub url: String,
    /// Maximum results to return (default 10).
    pub max: usize,
    /// Account to run against.
    pub account: Option<String>,
    /// Apify API token.
    pub api_key: Option<String>,
}

/// Arguments of commands that only need an account.
#[derive(Debug)]
pub struct AuthArgs {
    /// Account to run against.
    pub account: Option<String>,
    /// Apify API token.
    pub api_key: Option<String>,
}

/// Arguments of `login`.
#[derive(Debug)]
pub struct LoginArgs {
    /// Account name to store (default: "default").
    pub name: String,
    /// Apify API token (prompted for securely if omitted).
    pub api_key: Option<String>,
    /// Read the API token from stdin.
    pub api_key_stdin: bool,
    /// Do not open the browser to the API tokens page automatically.
    pub no_browser: bool,
    /// Replace the token on an account that already exists.
    pub force: bool,
    /// Store the token without calling the API to verify it first.
    pub skip_validation: bool,
}

/// The `accounts` subcommands.
#[derive(Debug)]
pub enum AccountsCommand {
    /// Add an account and store its API token in the OS keystore.
    Add { name: String, api_key: Option<String>, api_key_stdin: bool, force: bool, skip_validation: bool },
    /// List configured accounts.
    List { check: bool },
    /// Check that an account's stored token still works.
    Test { name: String },
    /// Remove an account and delete its stored token.
    Remove { name: String, yes: bool },
}


/// A switch: `--<long>`, off unless given.
pub open spec fn flag_v(id: Seq<char>, long: Seq<char>, help: Seq<char>) -> ArgV {
    ArgV {
        id,
        long: Some(long),
        short: None,
        value_name: None,
        default: None,
        kind: ArgKind::Flag,
        required: false,
        global: false,
        conflicts_with: None,
        help,
    }
}

/// An optional text option: `--<long> <VALUE>`.
pub open spec fn option_v(id: Seq<char>, long: Seq<char>, value_name: Seq<char>, help: Seq<char>) -> ArgV {
    ArgV {
        id,
        long: Some(long),
        short: None,
        value_name: Some(value_name),
        default: None,
        kind: ArgKind::Text,
        required: false,
        global: false,
        conflicts_with: None,
        help,
    }
}

/// A required positional value.
pub open spec fn positional_v(id: Seq<char>, value_name: Seq<char>, help: Seq<char>) -> ArgV {
    ArgV {
        id,
        long: None,
        short: None,
        value_name: Some(value_name),
        default: None,
        kind: ArgKind::Positional,
        required: true,
        global: false,
        conflicts_with: None,
        help,
    }
}

/// `--max <N>`: a count, 10 by default.
pub open spec fn max_v() -> ArgV {
    ArgV {
        id: "max"@,
        long: Some("max"@),
        short: None,
        value_name: Some("N"@),
        default: Some("10"@),
        kind: ArgKind::Count,
        required: false,
        global: false,
        conflicts_with: None,
        help: "Maximum results to return"@,
    }
}

/// `-a, --account <ACCOUNT>`.
pub open spec fn account_v() -> ArgV {
    ArgV {
        short: Some('a'),
        ..option_v(
            "account"@,
            "account"@,
            "ACCOUNT"@,
            "Account to run against (see 'producthunt accounts list')"@,
        )
    }
}

/// `--api-key <KEY>` for the commands that run against the API.
pub open spec fn api_key_v() -> ArgV {
    option_v("api_key"@, "api-key"@, "KEY"@, "Apify API token (or set APIFY_TOKEN env var)"@)
}

/// `--api-key <KEY>` for the commands that store a token; it excludes
/// `--api-key-stdin`.
pub open spec fn stored_key_v(help: Seq<char>) -> ArgV {
    ArgV { conflicts_with: Some("api_key_stdin"@), ..option_v("api_key"@, "api-key"@, "KEY"@, help) }
}

/// A command without subcommands.
pub open spec fn command_v(name: Seq<char>, about: Seq<char>, args: Seq<ArgV>) -> CommandV {
    CommandV { name, about, args, subcommands: Seq::empty(), subcommand_required: false }
}

/// `search <QUERY> [--max <N>] [--sort <SORT>] [--time-frame <TIMEFRAME>]`
/// with the account options; `--sort` is `popular` by default.
pub open spec fn search_v() -> CommandV {
    command_v(
        "search"@,
        "Search Product Hunt for products and launches"@,
        seq![
            positional_v("query"@, "QUERY"@, "Search query (product name, category, or keyword)"@),
            max_v(),
            ArgV { default: Some("popular"@), ..option_v("sort"@, "sort"@, "SORT"@, "Sort by: popular, newest"@) },
            option_v(
                "time_frame"@,
                "time-frame"@,
                "TIMEFRAME"@,
                "Optional time frame filter: today, this-week, this-month, all-time"@,
            ),
            account_v(),
            api_key_v(),
        ],
    )
}

/// `scrape <URL> [--max <N>]` with the account options.
pub open spec fn scrape_v() -> CommandV {
    command_v(
        "scrape"@,
        "Scrape a Product Hunt URL (product page, launch, topic, or collection)"@,
        seq![
            positional_v(
                "url"@,
                "URL"@,
                "Product Hunt URL to scrape (product page, launch, topic, or collection)"@,
            ),
            max_v(),
            account_v(),
            api_key_v(),
        ],
    )
}

/// `me` with the account options.
pub open spec fn me_v() -> CommandV {
    command_v("me"@, "Get current authenticated user context from Apify"@, seq![account_v(), api_key_v()])
}

/// `login [NAME]` (`default` by default) with the token options.
pub open spec fn login_v() -> CommandV {
    command_v(
        "login"@,
        "Log in with an Apify API token (opens browser to copy token)"@,
        seq![
            ArgV {
                required: false,
                default: Some("default"@),
                ..positional_v("name"@, "NAME"@, "Account name to store (default: \"default\")"@)
            },
            stored_key_v("Apify API token (prompted for securely if omitted)"@),
            flag_v("api_key_stdin"@, "api-key-stdin"@, "Read the API token from stdin"@),
            flag_v(
                "no_browser"@,
                "no-browser"@,
                "Do not open the browser to the API tokens page automatically"@,
            ),
            flag_v("force"@, "force"@, "Replace the token on an account that already exists"@),
            flag_v("skip_validation"@, "no-verify"@, "Store the token without calling the API to verify it first"@),
        ],
    )
}

/// `accounts add <NAME>` with the token options.
pub open spec fn add_v() -> CommandV {
    command_v(
        "add"@,
        "Add an account and store its API token in the OS keystore"@,
        seq![
            positional_v("name"@, "NAME"@, "Short name for this account, used as --account elsewhere"@),
            stored_key_v("Apify API token (prompted for without echo if omitted)"@),
            flag_v("api_key_stdin"@, "api-key-stdin"@, "Read the API token from stdin"@),
            flag_v("force"@, "force"@, "Replace the token on an account that already exists"@),
            flag_v("skip_validation"@, "no-verify"@, "Store the token without calling the API to verify it first"@),
        ],
    )
}

/// `accounts list [--check]`.
pub open spec fn list_v() -> CommandV {
    command_v(
        "list"@,
        "List configured accounts"@,
        seq![flag_v("check"@, "check"@, "Call the API once per account to check token validity"@)],
    )
}

/// `accounts test <NAME>`.
pub open spec fn test_v() -> CommandV {
    command_v(
        "test"@,
        "Check that an account's stored token still works"@,
        seq![positional_v("name"@, "NAME"@, "Account name"@)],
    )
}

/// `accounts remove <NAME> [--yes]`.
pub open spec fn remove_v() -> CommandV {
    command_v(
        "remove"@,
        "Remove an account and delete its stored token"@,
        seq![
            positional_v("name"@, "NAME"@, "Account name"@),
            flag_v("yes"@, "yes"@, "Skip the confirmation prompt"@),
        ],
    )
}

/// `accounts`, which needs one of its subcommands.
pub open spec fn accounts_v() -> CommandV {
    CommandV {
        name: "accounts"@,
        about: "Manage Apify accounts and stored tokens"@,
        args: Seq::empty(),
        subcommands: seq![add_v(), list_v(), test_v(), remove_v()],
        subcommand_required: true,
    }
}

/// `agent-readme`.
pub open spec fn readme_v() -> CommandV {
    command_v("agent-readme"@, "Print the operating manual for an LLM agent driving this CLI"@, Seq::empty())
}

/// The whole grammar: `producthunt` with the global `--json` switch, which
/// needs one of its commands.
pub open spec fn command_tree_spec() -> CommandV {
    CommandV {
        name: "producthunt"@,
        about: "Fast native CLI for searching and scraping Product Hunt launches and products via Apify"@,
        args: seq![
            ArgV { global: true, ..flag_v("json"@, "json"@, "Print raw JSON instead of YAML, for scripting"@) },
        ],
        subcommands: seq![search_v(), scrape_v(), me_v(), login_v(), accounts_v(), readme_v()],
        subcommand_required: true,
    }
}

/// A switch.
fn flag(id: &'static str, long: &'static str, help: &'static str) -> (r: ArgSpec)
    ensures
        r@ == flag_v(id@, long@, help@),
{
    ArgSpec {
        id,
        long: Some(long),
        short: None,
        value_name: None,
        default: None,
        kind: ArgKind::Flag,
        required: false,
        global: false,
        conflicts_with: None,
        help,
    }
}

/// An option with a text value.
fn option(id: &'static str, long: &'static str, value_name: &'static str, help: &'static str) -> (r: ArgSpec)
    ensures
        r@ == option_v(id@, long@, value_name@, help@),
{
    ArgSpec {
        id,
        long: Some(long),
        short: None,
        value_name: Some(value_name),
        default: None,
        kind: ArgKind::Text,
        required: false,
        global: false,
        conflicts_with: None,
        help,
    }
}

/// A required positional value.
fn positional(id: &'static str, value_name: &'static str, help: &'static str) -> (r: ArgSpec)
    ensures
        r@ == positional_v(id@, value_name@, help@),
{
    ArgSpec {
        id,
        long: None,
        short: None,
        value_name: Some(value_name),
        default: None,
        kind: ArgKind::Positional,
        required: true,
        global: false,
        conflicts_with: None,
        help,
    }
}

/// `--max <N>`, 10 by default.
fn max_arg() -> (r: ArgSpec)
    ensures
        r@ == max_v(),
{
    ArgSpec {
        id: "max",
        long: Some("max"),
        short: None,
        value_name: Some("N"),
        default: Some("10"),
        kind: ArgKind::Count,
        required: false,
        global: false,
        conflicts_with: None,
        help: "Maximum results to return",
    }
}

/// `-a, --account <ACCOUNT>`.
fn account_arg() -> (r: ArgSpec)
    ensures
        r@ == account_v(),
{
    ArgSpec {
        short: Some('a'),
        ..option("account", "account", "ACCOUNT", "Account to run against (see 'producthunt accounts list')")
    }
}

/// `--api-key <KEY>` for commands that run against the API.
fn api_key_arg() -> (r: ArgSpec)
    ensures
        r@ == api_key_v(),
{
    option("api_key", "api-key", "KEY", "Apify API token (or set APIFY_TOKEN env var)")
}

/// `--api-key <KEY>` for commands that store a token; it excludes `--api-key-stdin`.
fn stored_key_arg(help: &'static str) -> (r: ArgSpec)
    ensures
        r@ == stored_key_v(help@),
{
    ArgSpec { conflicts_with: Some("api_key_stdin"), ..option("api_key", "api-key", "KEY", help) }
}

/// A command without subcommands.
fn command(name: &'static str, about: &'static str, args: Vec<ArgSpec>) -> (r: CommandSpec)
    ensures
        r@ == command_v(name@, about@, args_view(args@)),
{
    let r = CommandSpec { name, about, args, subcommands: Vec::new(), subcommand_required: false };
    proof {
        lemma_commands_view(r.subcommands@);
        assert(r@.subcommands =~= Seq::<CommandV>::empty());
    }
    r
}

/// The command-line grammar (see [`command_tree_spec`]): `producthunt` with
/// the global `--json` switch and the commands `search`, `scrape`, `me`,
/// `login`, `accounts` (with `add`, `list`, `test`, `remove`) and
/// `agent-readme`, each with its arguments, defaults and conflicts.
pub fn command_tree() -> (r: CommandSpec)
    ensures
        r@ == command_tree_spec(),
{
    let search_args = vec![
        positional("query", "QUERY", "Search query (product name, category, or keyword)"),
        max_arg(),
        ArgSpec { default: Some("popular"), ..option("sort", "sort", "SORT", "Sort by: popular, newest") },
        option(
            "time_frame",
            "time-frame",
            "TIMEFRAME",
            "Optional time frame filter: today, this-week, this-month, all-time",
        ),
        account_arg(),
        api_key_arg(),
    ];
    assert(args_view(search_args@) =~= search_v().args);
    let search = command("search", "Search Product Hunt for products and launches", search_args);
    let scrape_args = vec![
        positional("url", "URL", "Product Hunt URL to scrape (product page, launch, topic, or collection)"),
        max_arg(),
        account_arg(),
        api_key_arg(),
    ];
    assert(args_view(scrape_args@) =~= scrape_v().args);
    let scrape = command(
        "scrape",
        "Scrape a Product Hunt URL (product page, launch, topic, or collection)",
        scrape_args,
    );
    let me_args = vec![account_arg(), api_key_arg()];
    assert(args_view(me_args@) =~= me_v().args);
    let me = command("me", "Get current authenticated user context from Apify", me_args);
    let login_args = vec![
        ArgSpec {
            required: false,
            default: Some("default"),
            ..positional("name", "NAME", "Account name to store (default: \"default\")")
        },
        stored_key_arg("Apify API token (prompted for securely if omitted)"),
        flag("api_key_stdin", "api-key-stdin", "Read the API token from stdin"),
        flag("no_browser", "no-browser", "Do not open the browser to the API tokens page automatically"),
        flag("force", "force", "Replace the token on an account that already exists"),
        flag("skip_validation", "no-verify", "Store the token without calling the API to verify it first"),
    ];
    assert(args_view(login_args@) =~= login_v().args);
    let login = command("login", "Log in with an Apify API token (opens browser to copy token)", login_args);
    let add_args = vec![
        positional("name", "NAME", "Short name for this account, used as --account elsewhere"),
        stored_key_arg("Apify API token (prompted for without echo if omitted)"),
        flag("api_key_stdin", "api-key-stdin", "Read the API token from stdin"),
        flag("force", "force", "Replace the token on an account that already exists"),
        flag("skip_validation", "no-verify", "Store the token without calling the API to verify it first"),
    ];
    assert(args_view(add_args@) =~= add_v().args);
    let add = command("add", "Add an account and store its API token in the OS keystore", add_args);
    let list_args = vec![flag("check", "check", "Call the API once per account to check token validity")];
    assert(args_view(list_args@) =~= list_v().args);
    let list = command("list", "List configured accounts", list_args);
    let test_args = vec![positional("name", "NAME", "Account name")];
    assert(args_view(test_args@) =~= test_v().args);
    let test = command("test", "Check that an account's stored token still works", test_args);
    let remove_args = vec![
        positional("name", "NAME", "Account name"),
        flag("yes", "yes", "Skip the confirmation prompt"),
    ];
    assert(args_view(remove_args@) =~= remove_v().args);
    let remove = command("remove", "Remove an account and delete its stored token", remove_args);
    let accounts = CommandSpec {
        name: "accounts",
        about: "Manage Apify accounts and stored tokens",
        args: Vec::new(),
        subcommands: vec![add, list, test, remove],
        subcommand_required: true,
    };
    proof {
        lemma_commands_view(accounts.subcommands@);
        assert(accounts@.subcommands =~= accounts_v().subcommands);
        assert(accounts@.args =~= accounts_v().args);
    }
    let readme_args: Vec<ArgSpec> = Vec::new();
    assert(args_view(readme_args@) =~= readme_v().args);
    let readme = command("agent-readme", "Print the operating manual for an LLM agent driving this CLI", readme_args);
    let json = ArgSpec { global: true, ..flag("json", "json", "Print raw JSON instead of YAML, for scripting") };
    let r = CommandSpec {
        name: "producthunt",
        about: "Fast native CLI for searching and scraping Product Hunt launches and products via Apify",
        args: vec![json],
        subcommands: vec![search, scrape, me, login, accounts, readme],
        subcommand_required: true,
    };
    proof {
        lemma_commands_view(r.subcommands@);
        assert(r@.subcommands =~= command_tree_spec().subcommands);
        assert(r@.args =~= command_tree_spec().args);
    }
    r
}

} // verus!
