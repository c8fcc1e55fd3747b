//! Account resolution: which Apify token a command runs with.
//!
//! A key can come from `--api-key <key>`, from `--account <name>` naming a
//! configured account whose token is in the keystore, or from the
//! `APIFY_TOKEN` environment variable, in that order of precedence.

pub mod identity;

use vstd::prelude::*;
use crate::client::{Client, ClientV, base_spec, opt_str_view};
use crate::config::{AccountConfig, AccountV, Config, entries_view, lemma_lookup_entry, lookup};
use crate::error::{Error, ErrorCode, ErrorV, new_spec};
use crate::text::{is_blank, is_blank_str, trim, trimmed, lemma_trim_not_blank};

verus! {

/// The account a command runs as, and its token.
#[derive(Debug)]
pub struct Resolved {
    /// The account's name, or `(flag)` / `(env)` for a key given directly.
    pub name: String,
    /// The account's record when it came from the configuration.
    pub config: Option<AccountConfig>,
    /// The Apify token.
    pub api_key: String,
}

/// The content of a [`Resolved`].
pub struct ResolvedV {
    pub name: Seq<char>,
    pub config: Option<AccountV>,
    pub api_key: Seq<char>,
}

impl View for Resolved {
    type V = ResolvedV;

    open spec fn view(&self) -> ResolvedV {
        ResolvedV {
            name: self.name@,
            config: match self.config {
                Some(a) => Some(a@),
                None => None,
            },
            api_key: self.api_key@,
        }
    }
}

impl Resolved {
    /// The API client for this account's token, against the API root that
    /// the environment configures (`api_url`), if any.
    pub fn client(&self, api_url: Option<&str>) -> (r: Client)
        ensures
            r@ == (ClientV { base: base_spec(opt_str_view(api_url)), token: trim(self.api_key@) }),
    {
        Client::new(self.api_key.as_str(), api_url)
    }
}

/// How far resolution got.
#[derive(Debug)]
pub enum Resolution {
    /// The token is known.
    Ready(Resolved),
    /// The configuration must be loaded before resolution can go on.
    NeedsConfig,
    /// The account is configured; its token must be read from the keystore.
    NeedsKey { name: String, account: AccountConfig },
}

/// The content of a [`Resolution`].
pub enum ResolutionV {
    Ready(ResolvedV),
    NeedsConfig,
    NeedsKey(Seq<char>, AccountV),
}

impl View for Resolution {
    type V = ResolutionV;

    open spec fn view(&self) -> ResolutionV {
        match *self {
            Resolution::Ready(r) => ResolutionV::Ready(r@),
            Resolution::NeedsConfig => ResolutionV::NeedsConfig,
            Resolution::NeedsKey { name, account } => ResolutionV::NeedsKey(name@, account@),
        }
    }
}

/// A value was given and is not blank.
pub open spec fn given(v: Option<Seq<char>>) -> bool {
    v matches Some(s) && !is_blank(s)
}

/// How one configured account is listed: its name, followed by its identity
/// in parentheses when that is not blank.
pub open spec fn entry_label(e: (Seq<char>, AccountV)) -> Seq<char> {
    if is_blank(e.1.identity) {
        e.0
    } else {
        e.0 + " ("@ + e.1.identity + ")"@
    }
}

/// The labels of the accounts, separated by `, `.
pub open spec fn listing(s: Seq<(Seq<char>, AccountV)>) -> Seq<char>
    decreases s.len(),
{
    if s.len() == 0 {
        Seq::empty()
    } else if s.len() == 1 {
        entry_label(s[0])
    } else {
        listing(s.subrange(0, s.len() - 1)) + ", "@ + entry_label(s[s.len() - 1])
    }
}

/// The text that tells which accounts are configured.
pub open spec fn describe_spec(entries: Seq<(Seq<char>, AccountV)>) -> Seq<char> {
    if entries.len() == 0 {
        "No accounts are configured yet. Run 'producthunt accounts add <name> --api-key <key>'."@
    } else {
        "Configured accounts: "@ + listing(entries)
    }
}

/// Concatenation of three strings.
fn join3(a: &str, b: &str, c: &str) -> (r: String)
    ensures
        r@ == a@ + b@ + c@,
{
    let mut s = String::from_str(a);
    s.append(b);
    s.append(c);
    s
}

/// Lists the configured accounts in the order of their names (see [`describe_spec`]).
pub fn describe(config: &Config) -> (r: String)
    ensures
        r@ == describe_spec(config@),
{
    let entries = config.sorted();
    if entries.len() == 0 {
        return String::from_str(
            "No accounts are configured yet. Run 'producthunt accounts add <name> --api-key <key>'.",
        );
    }
    let ghost s = config@;
    let mut out = String::new();
    let mut i: usize = 0;
    while i < entries.len()
        invariant
            s == entries_view(entries@),
            i <= s.len(),
            out@ == listing(s.subrange(0, i as int)),
        decreases entries.len() - i,
    {
        let (name, account) = (&entries[i].0, &entries[i].1);
        let label = if is_blank_str(account.identity.as_str()) {
            name.clone()
        } else {
            let mut l = join3(name.as_str(), " (", account.identity.as_str());
            l.append(")");
            l
        };
        assert(label@ == entry_label(s[i as int]));
        if i > 0 {
            out.append(", ");
        }
        out.append(label.as_str());
        let ghost next = s.subrange(0, i + 1);
        assert(next.subrange(0, i as int) =~= s.subrange(0, i as int));
        assert(next[i as int] == s[i as int]);
        if i == 0 {
            assert(out@ =~= listing(next));
        }
        i = i + 1;
    }
    assert(s.subrange(0, s.len() as int) =~= s);
    let mut r = String::from_str("Configured accounts: ");
    r.append(out.as_str());
    r
}

/// What resolution gives for the requested account, the `--api-key` flag,
/// the configuration (once loaded) and the `APIFY_TOKEN` variable:
/// a non-blank flag wins, trimmed, before anything is loaded; then a
/// non-blank requested account must be configured and its token read from
/// the keystore; then a non-blank `APIFY_TOKEN` is used, trimmed; otherwise
/// no account is known.
pub open spec fn resolve_spec(
    requested_account: Option<Seq<char>>,
    explicit_key: Option<Seq<char>>,
    config: Option<Seq<(Seq<char>, AccountV)>>,
    env_token: Option<Seq<char>>,
) -> Result<ResolutionV, ErrorV> {
    if given(explicit_key) {
        Ok(
            ResolutionV::Ready(
                ResolvedV { name: "(flag)"@, config: None, api_key: trim(explicit_key->0) },
            ),
        )
    } else if config is None {
        Ok(ResolutionV::NeedsConfig)
    } else if given(requested_account) {
        let requested = trim(requested_account->0);
        match lookup(config->0, requested) {
            Some(account) => Ok(ResolutionV::NeedsKey(requested, account)),
            None => Err(
                ErrorV {
                    detail: Some(describe_spec(config->0)),
                    remediation: Some("producthunt accounts list"@),
                    ..new_spec(ErrorCode::NoAccount, "No account named '"@ + requested + "'."@)
                },
            ),
        }
    } else if given(env_token) {
        Ok(ResolutionV::Ready(ResolvedV { name: "(env)"@, config: None, api_key: trim(env_token->0) }))
    } else if config->0.len() == 0 {
        Err(
            ErrorV {
                detail: Some(
                    "No accounts are configured yet. Run 'producthunt login <name>' or 'producthunt accounts add <name>'."@,
                ),
                remediation: Some("producthunt login"@),
                ..new_spec(
                    ErrorCode::NoAccount,
                    "No account or API key specified. Pass --account <name>, --api-key <key>, or set APIFY_TOKEN."@,
                )
            },
        )
    } else {
        Err(
            ErrorV {
                detail: Some(describe_spec(config->0)),
                remediation: Some("producthunt accounts list"@),
                ..new_spec(
                    ErrorCode::NoAccount,
                    "No account specified. Pass --account <name>, --api-key <key>, or set APIFY_TOKEN."@,
                )
            },
        )
    }
}

/// A requested account is the account that runs: without a usable
/// `--api-key` and once the configuration is loaded, a request for a
/// non-blank account name either resolves to exactly that (trimmed) name with
/// the record configured under it, or fails with `no_account` when no account
/// of that name is configured; it never falls back to another account or to
/// `APIFY_TOKEN`.
pub proof fn lemma_requested_account_is_used(
    requested: Seq<char>,
    explicit_key: Option<Seq<char>>,
    config: Seq<(Seq<char>, AccountV)>,
    env_token: Option<Seq<char>>,
)
    requires
        !is_blank(requested),
        explicit_key matches Some(k) ==> is_blank(k),
    ensures
        resolve_spec(Some(requested), explicit_key, Some(config), env_token) matches Ok(r) ==> (
        r matches ResolutionV::NeedsKey(n, a) && n == trim(requested) && exists|i: int|
            0 <= i < config.len() && #[trigger] config[i] == (n, a)),
        (exists|i: int| 0 <= i < config.len() && (#[trigger] config[i]).0 == trim(requested))
            ==> resolve_spec(Some(requested), explicit_key, Some(config), env_token) is Ok,
        (forall|i: int| 0 <= i < config.len() ==> (#[trigger] config[i]).0 != trim(requested))
            ==> (resolve_spec(Some(requested), explicit_key, Some(config), env_token) matches Err(e)
            && e.code == ErrorCode::NoAccount),
{
    lemma_lookup_entry(config, trim(requested));
    if forall|i: int| 0 <= i < config.len() ==> (#[trigger] config[i]).0 != trim(requested) {
        crate::config::lemma_lookup_absent(config, trim(requested));
    }
}

/// The view of a resolution's result.
pub open spec fn resolution_result(r: Result<Resolution, Error>) -> Result<ResolutionV, ErrorV> {
    match r {
        Ok(x) => Ok(x@),
        Err(e) => Err(e@),
    }
}

/// The view of an optional configuration.
pub open spec fn config_view(c: Option<&Config>) -> Option<Seq<(Seq<char>, AccountV)>> {
    match c {
        Some(x) => Some(x@),
        None => None,
    }
}

/// The value, when it is given and not blank.
fn non_blank(v: Option<&str>) -> (r: bool)
    ensures
        r == given(opt_str_view(v)),
{
    match v {
        Some(s) => !is_blank_str(s),
        None => false,
    }
}

/// Resolves the account to run as (see [`resolve_spec`]). The configuration
/// is `None` until it has been loaded; the answer `NeedsConfig` asks for it.
pub fn resolve(
    requested_account: Option<&str>,
    explicit_key: Option<&str>,
    config: Option<&Config>,
    env_token: Option<&str>,
) -> (r: Result<Resolution, Error>)
    ensures
        resolution_result(r) == resolve_spec(
            opt_str_view(requested_account),
            opt_str_view(explicit_key),
            config_view(config),
            opt_str_view(env_token),
        ),
{
    if non_blank(explicit_key) {
        let key = trimmed(explicit_key.unwrap());
        return Ok(
            Resolution::Ready(
                Resolved { name: String::from_str("(flag)"), config: None, api_key: key },
            ),
        );
    }
    let config = match config {
        Some(c) => c,
        None => {
            return Ok(Resolution::NeedsConfig);
        },
    };
    if non_blank(requested_account) {
        let requested = trimmed(requested_account.unwrap());
        return match config.find(requested.as_str()) {
            Some((name, account)) => Ok(
                Resolution::NeedsKey { name: name.clone(), account: account.duplicate() },
            ),
            None => {
                let message = join3("No account named '", requested.as_str(), "'.");
                let listed = describe(config);
                Err(
                    Error::new(ErrorCode::NoAccount, message.as_str()).detail(
                        listed.as_str(),
                    ).fix("producthunt accounts list"),
                )
            },
        };
    }
    if non_blank(env_token) {
        let key = trimmed(env_token.unwrap());
        return Ok(
            Resolution::Ready(Resolved { name: String::from_str("(env)"), config: None, api_key: key }),
        );
    }
    if config.is_empty() {
        return Err(
            Error::new(
                ErrorCode::NoAccount,
                "No account or API key specified. Pass --account <name>, --api-key <key>, or set APIFY_TOKEN.",
            ).detail(
                "No accounts are configured yet. Run 'producthunt login <name>' or 'producthunt accounts add <name>'.",
            ).fix("producthunt login"),
        );
    }
    let listed = describe(config);
    Err(
        Error::new(
            ErrorCode::NoAccount,
            "No account specified. Pass --account <name>, --api-key <key>, or set APIFY_TOKEN.",
        ).detail(listed.as_str()).fix("producthunt accounts list"),
    )
}

/// What reading the keystore for a configured account gives: the stored key
/// when there is one and it is not blank (kept as stored), otherwise an
/// error that asks for the key to be added again.
pub open spec fn stored_key_spec(name: Seq<char>, account: AccountV, stored_key: Option<Seq<char>>) -> Result<ResolvedV, ErrorV> {
    if given(stored_key) {
        Ok(ResolvedV { name, config: Some(account), api_key: stored_key->0 })
    } else {
        Err(
            ErrorV {
                detail: Some("The config entry exists but the keystore has nothing under it."@),
                remediation: Some("producthunt accounts add "@ + name + " --api-key <key>"@),
                ..new_spec(
                    ErrorCode::AuthRequired,
                    "Account '"@ + name + "' has no stored API key."@,
                )
            },
        )
    }
}

/// The view of a resolved account's result.
pub open spec fn resolved_result(r: Result<Resolved, Error>) -> Result<ResolvedV, ErrorV> {
    match r {
        Ok(x) => Ok(x@),
        Err(e) => Err(e@),
    }
}

/// The view of an optional string.
pub open spec fn opt_string_view(s: Option<String>) -> Option<Seq<char>> {
    match s {
        Some(t) => Some(t@),
        None => None,
    }
}

/// Completes the resolution of a configured account with what the keystore
/// holds under it (see [`stored_key_spec`]).
pub fn with_stored_key(name: String, account: AccountConfig, stored_key: Option<String>) -> (r: Result<
    Resolved,
    Error,
>)
    ensures
        resolved_result(r) == stored_key_spec(name@, account@, opt_string_view(stored_key)),
{
    match stored_key {
        Some(k) => {
            if !is_blank_str(k.as_str()) {
                return Ok(Resolved { name, config: Some(account), api_key: k });
            }
        },
        None => {},
    }
    let message = join3("Account '", name.as_str(), "' has no stored API key.");
    let remediation = join3("producthunt accounts add ", name.as_str(), " --api-key <key>");
    Err(
        Error::new(ErrorCode::AuthRequired, message.as_str()).detail(
            "The config entry exists but the keystore has nothing under it.",
        ).fix(remediation.as_str()),
    )
}


/// A non-blank `--api-key` decides the resolution on its own: whatever
/// account is requested, whatever is configured and whatever `APIFY_TOKEN`
/// holds, the command runs with that key, trimmed, under the name `(flag)`.
pub proof fn lemma_explicit_key_wins(
    key: Seq<char>,
    requested_a: Option<Seq<char>>,
    requested_b: Option<Seq<char>>,
    config_a: Option<Seq<(Seq<char>, AccountV)>>,
    config_b: Option<Seq<(Seq<char>, AccountV)>>,
    env_a: Option<Seq<char>>,
    env_b: Option<Seq<char>>,
)
    requires
        !is_blank(key),
    ensures
        resolve_spec(requested_a, Some(key), config_a, env_a) == resolve_spec(
            requested_b,
            Some(key),
            config_b,
            env_b,
        ),
        resolve_spec(requested_a, Some(key), config_a, env_a) == Ok::<ResolutionV, ErrorV>(
            ResolutionV::Ready(ResolvedV { name: "(flag)"@, config: None, api_key: trim(key) }),
        ),
{
}

/// Once the configuration is loaded, a non-blank requested account is
/// resolved through the configuration whatever `APIFY_TOKEN` holds.
pub proof fn lemma_account_over_env(
    account: Seq<char>,
    explicit_key: Option<Seq<char>>,
    config: Seq<(Seq<char>, AccountV)>,
    env_a: Option<Seq<char>>,
    env_b: Option<Seq<char>>,
)
    requires
        !is_blank(account),
        !given(explicit_key),
    ensures
        resolve_spec(Some(account), explicit_key, Some(config), env_a) == resolve_spec(
            Some(account),
            explicit_key,
            Some(config),
            env_b,
        ),
        resolve_spec(Some(account), explicit_key, Some(config), env_a) matches Ok(r) ==> r
            is NeedsKey,
{
}

/// When no account is explicitly given, a non-blank `APIFY_TOKEN` is used,
/// trimmed, under the name `(env)`, whatever accounts are configured.
pub proof fn lemma_env_token_used(
    requested_account: Option<Seq<char>>,
    explicit_key: Option<Seq<char>>,
    config: Seq<(Seq<char>, AccountV)>,
    token: Seq<char>,
)
    requires
        !given(requested_account),
        !given(explicit_key),
        !is_blank(token),
    ensures
        resolve_spec(requested_account, explicit_key, Some(config), Some(token)) == Ok::<
            ResolutionV,
            ErrorV,
        >(ResolutionV::Ready(ResolvedV { name: "(env)"@, config: None, api_key: trim(token) })),
{
}

/// Whenever resolution produces a token, by any route, the token is not
/// blank, and the client built for it sends a non-empty token.
pub proof fn lemma_resolved_key_usable(
    requested_account: Option<Seq<char>>,
    explicit_key: Option<Seq<char>>,
    config: Option<Seq<(Seq<char>, AccountV)>>,
    env_token: Option<Seq<char>>,
    name: Seq<char>,
    account: AccountV,
    stored_key: Option<Seq<char>>,
)
    ensures
        resolve_spec(requested_account, explicit_key, config, env_token) matches Ok(
            ResolutionV::Ready(r),
        ) ==> !is_blank(r.api_key) && trim(r.api_key).len() > 0,
        stored_key_spec(name, account, stored_key) matches Ok(r) ==> !is_blank(r.api_key)
            && trim(r.api_key).len() > 0,
{
    if given(explicit_key) {
        lemma_trim_not_blank(explicit_key->0);
        lemma_trim_not_blank(trim(explicit_key->0));
    }
    if given(env_token) {
        lemma_trim_not_blank(env_token->0);
        lemma_trim_not_blank(trim(env_token->0));
    }
    if given(stored_key) {
        lemma_trim_not_blank(stored_key->0);
    }
}

} // verus!
