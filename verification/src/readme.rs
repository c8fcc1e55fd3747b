//! The manual an agent reads before driving this CLI: Markdown by default,
//! so that it can be pasted into a system prompt, or structured data.

use vstd::prelude::*;
use crate::error::{ErrorCode, code_name, exit_code_spec};
use crate::json::{Json, JsonV, items_view, members_view, object, push_member};

verus! {

/// The Apify actor that searches and scrapes Product Hunt.
pub const ACTOR_NAME: &'static str = "cloud9_ai~producthunt-scraper";

/// The rules an agent must follow.
pub open spec fn rules_spec() -> Seq<Seq<char>> {
    seq![
        "Authentication requires an Apify token. Configure accounts with 'producthunt login' or pass --account, --api-key, or set APIFY_TOKEN."@,
        "Search and scrape calls execute synchronously via the Apify Product Hunt scraper actor and may take 30-60s."@,
        "Output is clean YAML by default; pass --json for structured JSON output suitable for jq and automated agents."@,
        "On exit code auth_required (3), stop immediately and surface the remediation string to a human. Do not loop."@,
        "Non-zero exits produce an error envelope on stderr containing code, message, and remediation hints."@
    ]
}

/// Each exit code with what it means and what an agent should do about it.
pub open spec fn exit_table() -> Seq<(Seq<char>, Seq<char>)> {
    seq![
        ("0"@, "ok"@),
        ("1"@, "error - unclassified, report and stop"@),
        ("2"@, "network - retry once, then stop"@),
        ("3"@, "auth_required - stop, surface the remediation to a human"@),
        ("4"@, "not_found - do not retry"@),
        ("5"@, "rate_limited - back off before retrying"@),
        ("6"@, "invalid_input - fix the call"@),
        ("7"@, "no_account - run producthunt accounts list or producthunt login"@)
    ]
}

/// The structured manual: the tool, the actor, the rules and the exit codes.
pub open spec fn manual_spec() -> JsonV {
    JsonV::Object(
        seq![
            ("tool"@, JsonV::Str("producthunt"@)),
            ("actor"@, JsonV::Str(ACTOR_NAME@)),
            ("rules"@, JsonV::Array(rules_spec().map_values(|r: Seq<char>| JsonV::Str(r)))),
            (
                "exitCodes"@,
                JsonV::Object(
                    exit_table().map_values(
                        |e: (Seq<char>, Seq<char>)| (e.0, JsonV::Str(e.1)),
                    ),
                ),
            ),
        ],
    )
}

/// The manual in one of its two forms.
#[derive(Debug)]
pub enum Document {
    /// Markdown text.
    Text(String),
    /// Structured data.
    Data(Json),
}

fn rules() -> (r: Vec<&'static str>)
    ensures
        r@.map_values(|s: &str| s@) == rules_spec(),
{
    let r = vec![
        "Authentication requires an Apify token. Configure accounts with 'producthunt login' or pass --account, --api-key, or set APIFY_TOKEN.",
        "Search and scrape calls execute synchronously via the Apify Product Hunt scraper actor and may take 30-60s.",
        "Output is clean YAML by default; pass --json for structured JSON output suitable for jq and automated agents.",
        "On exit code auth_required (3), stop immediately and surface the remediation string to a human. Do not loop.",
        "Non-zero exits produce an error envelope on stderr containing code, message, and remediation hints."
    ];
    assert(r@.map_values(|s: &str| s@) =~= rules_spec());
    r
}

fn exit_lines() -> (r: Vec<(&'static str, &'static str)>)
    ensures
        r@.map_values(|e: (&str, &str)| (e.0@, e.1@)) == exit_table(),
{
    let r = vec![
        ("0", "ok"),
        ("1", "error - unclassified, report and stop"),
        ("2", "network - retry once, then stop"),
        ("3", "auth_required - stop, surface the remediation to a human"),
        ("4", "not_found - do not retry"),
        ("5", "rate_limited - back off before retrying"),
        ("6", "invalid_input - fix the call"),
        ("7", "no_account - run producthunt accounts list or producthunt login")
    ];
    assert(r@.map_values(|e: (&str, &str)| (e.0@, e.1@)) =~= exit_table());
    r
}

/// The manual: the Markdown text, or the structured data when `json` is set.
pub fn print(json: bool) -> (r: Document)
    ensures
        match r {
            Document::Data(d) => json && d@ == manual_spec(),
            Document::Text(t) => !json && t@ == README@,
        },
{
    if !json {
        return Document::Text(String::from_str(README));
    }
    let rs = rules();
    let mut items: Vec<Json> = Vec::new();
    let mut i: usize = 0;
    while i < rs.len()
        invariant
            i <= rs@.len(),
            items@.len() == i,
            rs@.map_values(|s: &str| s@) == rules_spec(),
            items_view(items@) =~= rules_spec().subrange(0, i as int).map_values(
                |r: Seq<char>| JsonV::Str(r),
            ),
        decreases rs.len() - i,
    {
        let ghost before = items@;
        items.push(Json::string(rs[i]));
        proof {
            crate::json::lemma_items_view_push(before, items@[i as int]);
            assert(items@ =~= before.push(items@[i as int]));
            assert(rules_spec().subrange(0, i + 1).map_values(|r: Seq<char>| JsonV::Str(r))
                =~= rules_spec().subrange(0, i as int).map_values(|r: Seq<char>| JsonV::Str(r)).push(
                JsonV::Str(rules_spec()[i as int]),
            ));
            assert(rs@.map_values(|s: &str| s@)[i as int] == rs@[i as int]@);
        }
        i = i + 1;
    }
    let es = exit_lines();
    let mut codes: Vec<(String, Json)> = Vec::new();
    proof {
        assert(members_view(codes@) =~= Seq::empty());
    }
    let mut k: usize = 0;
    while k < es.len()
        invariant
            k <= es@.len(),
            es@.map_values(|e: (&str, &str)| (e.0@, e.1@)) == exit_table(),
            members_view(codes@) =~= exit_table().subrange(0, k as int).map_values(
                |e: (Seq<char>, Seq<char>)| (e.0, JsonV::Str(e.1)),
            ),
        decreases es.len() - k,
    {
        let ghost before = members_view(codes@);
        push_member(&mut codes, es[k].0, Json::string(es[k].1));
        proof {
            assert(es@.map_values(|e: (&str, &str)| (e.0@, e.1@))[k as int] == (es@[k as int].0@, es@[k as int].1@));
            assert(exit_table().subrange(0, k + 1).map_values(|e: (Seq<char>, Seq<char>)| (e.0, JsonV::Str(e.1)))
                =~= exit_table().subrange(0, k as int).map_values(|e: (Seq<char>, Seq<char>)| (e.0, JsonV::Str(e.1))).push(
                (exit_table()[k as int].0, JsonV::Str(exit_table()[k as int].1)),
            ));
        }
        k = k + 1;
    }
    let mut m: Vec<(String, Json)> = Vec::new();
    proof {
        assert(members_view(m@) =~= Seq::empty());
        assert(rules_spec().subrange(0, rules_spec().len() as int) =~= rules_spec());
        assert(exit_table().subrange(0, exit_table().len() as int) =~= exit_table());
    }
    push_member(&mut m, "tool", Json::string("producthunt"));
    push_member(&mut m, "actor", Json::string(ACTOR_NAME));
    push_member(&mut m, "rules", Json::Array(items));
    push_member(&mut m, "exitCodes", object(codes));
    let r = object(m);
    assert(members_view(m@) =~= manual_spec()->Object_0);
    Document::Data(r)
}

/// The manual lists every error class under its own exit code, by the
/// name that the error envelope's `code` field carries, followed by ` - `
/// and what to do.
pub proof fn lemma_manual_names_each_code(c: ErrorCode)
    ensures
        exit_table()[exit_code_spec(c)].1.subrange(0, code_name(c).len() as int) == code_name(c),
        exit_table()[exit_code_spec(c)].1.subrange(
            code_name(c).len() as int,
            code_name(c).len() + 3int,
        ) == " - "@,
{
    reveal_strlit(" - ");
    match c {
        ErrorCode::Error => {
            reveal_strlit("error");
            reveal_strlit("error - unclassified, report and stop");
            assert(exit_table()[1].1.subrange(0, 5) =~= "error"@);
            assert(exit_table()[1].1.subrange(5, 8) =~= " - "@);
        },
        ErrorCode::Network => {
            reveal_strlit("network");
            reveal_strlit("network - retry once, then stop");
            assert(exit_table()[2].1.subrange(0, 7) =~= "network"@);
            assert(exit_table()[2].1.subrange(7, 10) =~= " - "@);
        },
        ErrorCode::AuthRequired => {
            reveal_strlit("auth_required");
            reveal_strlit("auth_required - stop, surface the remediation to a human");
            assert(exit_table()[3].1.subrange(0, 13) =~= "auth_required"@);
            assert(exit_table()[3].1.subrange(13, 16) =~= " - "@);
        },
        ErrorCode::NotFound => {
            reveal_strlit("not_found");
            reveal_strlit("not_found - do not retry");
            assert(exit_table()[4].1.subrange(0, 9) =~= "not_found"@);
            assert(exit_table()[4].1.subrange(9, 12) =~= " - "@);
        },
        ErrorCode::RateLimited => {
            reveal_strlit("rate_limited");
            reveal_strlit("rate_limited - back off before retrying");
            assert(exit_table()[5].1.subrange(0, 12) =~= "rate_limited"@);
            assert(exit_table()[5].1.subrange(12, 15) =~= " - "@);
        },
        ErrorCode::InvalidInput => {
            reveal_strlit("invalid_input");
            reveal_strlit("invalid_input - fix the call");
            assert(exit_table()[6].1.subrange(0, 13) =~= "invalid_input"@);
            assert(exit_table()[6].1.subrange(13, 16) =~= " - "@);
        },
        ErrorCode::NoAccount => {
            reveal_strlit("no_account");
            reveal_strlit("no_account - run producthunt accounts list or producthunt login");
            assert(exit_table()[7].1.subrange(0, 10) =~= "no_account"@);
            assert(exit_table()[7].1.subrange(10, 13) =~= " - "@);
        },
    }
}

/// The Markdown manual.
pub const README: &'static str = r#"# producthunt - agent operating manual

A native Rust CLI for searching and scraping Product Hunt launches, products, reviews, and collections via the Apify Product Hunt scraper actor (`cloud9_ai/producthunt-scraper`). Results are YAML on stdout, errors are YAML on stderr, and `--json` switches both streams to JSON.

## Authentication & Multi-Account Management

Authentication uses an Apify API token. You can provide credentials in three ways:

1. **Named accounts in the OS keystore** (Recommended):
   Use `producthunt login [<name>]` or `producthunt accounts add <name>` to securely store your Apify token in the macOS Keychain, Windows DPAPI, or Linux Secret Service vault.
   Specify the account when calling commands: `producthunt search "AI" --account work` (or `-a work`).

2. **Environment variable**:
   Set `APIFY_TOKEN=your_token_here`. When no account is explicitly given, this token is automatically used.

3. **Explicit flag**:
   Pass `--api-key <key>` directly to any command.

### Managing accounts

    producthunt login [<name>] [--api-key <key>]  # opens browser to copy API token
    producthunt accounts add <name> --api-key <key> [--force]
    printf %s "$KEY" | producthunt accounts add <name> --api-key-stdin
    producthunt accounts list [--check]
    producthunt accounts test <name>
    producthunt accounts remove <name> --yes

`add` verifies the token against Apify's `/v2/users/me` endpoint before storing it.
`list` displays configured accounts and active keystore backends.
`test` validates a stored token against the live Apify API.
`remove` clears local credentials.

## Searching Product Hunt

Search for products, launches, categories, or keywords:

    producthunt search "developer tools"
    producthunt search "AI coding assistant" --sort popular --max 20
    producthunt search "database" --sort newest --time-frame this-month -a work

### Search options:
- `<QUERY>`: Search terms, keywords, or topics.
- `--max <N>`: Maximum items to return (default: 10).
- `--sort <SORT>`: Sorting criteria: `popular` (default) or `newest`.
- `--time-frame <TF>`: Time window filter (e.g. `today`, `this-week`, `this-month`, `all-time`).
- `-a, --account <ACCOUNT>`: Account name to authenticate with.
- `--api-key <KEY>`: Direct Apify token override.

## Scraping Product Hunt URLs

Extract structured data from a specific Product Hunt post, launch, topic, or collection URL:

    producthunt scrape "https://www.producthunt.com/posts/cursor"
    producthunt scrape "https://www.producthunt.com/topics/artificial-intelligence" --max 30

### Scrape options:
- `<URL>`: Full URL of the Product Hunt product page, topic, or collection.
- `--max <N>`: Maximum items to return (default: 10).
- `-a, --account <ACCOUNT>`: Account name to authenticate with.
- `--api-key <KEY>`: Direct Apify token override.

## Identity Context

Inspect current authentication status and user details:

    producthunt me -a work
    producthunt me --api-key $APIFY_TOKEN

## Error Envelopes & Exit Codes

Errors are formatted as structured envelopes on stderr:

    error: The Apify API token was rejected or is invalid.
    code: auth_required
    remediation: producthunt login work --force

Exit codes:

    0  ok
    1  error          unclassified error
    2  network        temporary network failure; retry once
    3  auth_required  authentication failed; do not retry, show remediation
    4  not_found      the requested resource or actor was not found
    5  rate_limited   rate limit exceeded; back off before retrying
    6  invalid_input  invalid parameters or missing required arguments
    7  no_account     no account specified or configured
"#;

} // verus!
