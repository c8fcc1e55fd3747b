//! `login` and `accounts`: what is decided when a token is stored, checked,
//! listed or removed. Reading the token, the keystore and the configuration
//! file, and asking the API, are left to the caller.

use vstd::prelude::*;
use crate::account::identity::{describe, id_keys, identity_keys, pick, user_id};
use crate::account::given;
use crate::client::opt_str_view;
use crate::config::{AccountConfig, AccountV, Config, entries_view};
use crate::error::{Error, ErrorCode, ErrorV, new_spec};
use crate::json::{Json, JsonV, items_view, lemma_items_view_push, members_view, object, push_member};
use crate::text::{decimal, is_blank, is_blank_str, lemma_trim_not_blank, trim, trimmed};

verus! {

/// What is known of an account's stored token.
#[derive(Clone, Copy, Debug, PartialEq, Eq, Structural)]
pub enum KeyStatus {
    /// Nothing usable is stored.
    Missing,
    /// A token is stored; it was not checked.
    Stored,
    /// The stored token was accepted by the API.
    Valid,
    /// The API rejected the stored token.
    Invalid,
}

/// The name under which a key status is reported.
pub open spec fn status_name(k: KeyStatus) -> Seq<char> {
    match k {
        KeyStatus::Missing => "missing"@,
        KeyStatus::Stored => "stored"@,
        KeyStatus::Valid => "valid"@,
        KeyStatus::Invalid => "invalid"@,
    }
}

impl KeyStatus {
    /// The name under which this status is reported.
    pub fn as_str(self) -> (r: &'static str)
        ensures
            r@ == status_name(self),
    {
        match self {
            KeyStatus::Missing => "missing",
            KeyStatus::Stored => "stored",
            KeyStatus::Valid => "valid",
            KeyStatus::Invalid => "invalid",
        }
    }
}

/// Where tokens are kept.
#[derive(Clone, Copy, Debug, PartialEq, Eq, Structural)]
pub enum KeyStore {
    /// The owner-only `tokens.json` file, chosen explicitly.
    Plaintext,
    /// The macOS Keychain.
    Keychain,
    /// Windows DPAPI.
    Dpapi,
    /// The Linux Secret Service.
    SecretService,
}

/// The name under which a key store is reported.
pub open spec fn store_name(k: KeyStore) -> Seq<char> {
    match k {
        KeyStore::Plaintext => "plaintext"@,
        KeyStore::Keychain => "keychain"@,
        KeyStore::Dpapi => "dpapi"@,
        KeyStore::SecretService => "secret-service"@,
    }
}

impl KeyStore {
    /// The name under which this store is reported.
    pub fn as_str(self) -> (r: &'static str)
        ensures
            r@ == store_name(self),
    {
        match self {
            KeyStore::Plaintext => "plaintext",
            KeyStore::Keychain => "keychain",
            KeyStore::Dpapi => "dpapi",
            KeyStore::SecretService => "secret-service",
        }
    }
}

/// The store in use: the plaintext file when `PRODUCTHUNT_SECRET_STORE` is
/// `plaintext` (surrounding whitespace aside), the platform's native store
/// otherwise; plaintext storage is only ever chosen explicitly.
pub open spec fn key_store_spec(setting: Option<Seq<char>>, native: KeyStore) -> KeyStore {
    match setting {
        Some(s) => if trim(s) == "plaintext"@ {
            KeyStore::Plaintext
        } else {
            native
        },
        None => native,
    }
}

/// See [`key_store_spec`]; `setting` is what `PRODUCTHUNT_SECRET_STORE` holds.
pub fn key_store(setting: Option<&str>, native: KeyStore) -> (r: KeyStore)
    ensures
        r == key_store_spec(opt_str_view(setting), native),
{
    match setting {
        Some(s) => {
            let t = trimmed(s);
            if crate::text::str_eq(t.as_str(), "plaintext") {
                KeyStore::Plaintext
            } else {
                native
            }
        },
        None => native,
    }
}

/// Whether `login` opens the API tokens page in the browser: only when the
/// token is neither given on the command line nor read from stdin and the
/// browser was not turned off with `--no-browser`.
pub fn opens_browser(api_key_given: bool, api_key_stdin: bool, no_browser: bool) -> (r: bool)
    ensures
        r == (!api_key_given && !api_key_stdin && !no_browser),
{
    !api_key_given && !api_key_stdin && !no_browser
}

/// Whether a stored token is worth checking against the API: only when a
/// check was asked for and something usable is stored.
pub open spec fn should_check_spec(stored: Option<Seq<char>>, check: bool) -> bool {
    check && given(stored)
}

/// See [`should_check_spec`].
pub fn should_check(stored: Option<&str>, check: bool) -> (r: bool)
    ensures
        r == should_check_spec(opt_str_view(stored), check),
{
    match stored {
        Some(k) => check && !is_blank_str(k),
        None => false,
    }
}

/// Plaintext storage is opt-in: with a native store available, tokens go to
/// the plaintext file exactly when `PRODUCTHUNT_SECRET_STORE` asks for it.
pub proof fn lemma_plaintext_is_opt_in(setting: Option<Seq<char>>, native: KeyStore)
    requires
        native != KeyStore::Plaintext,
    ensures
        (key_store_spec(setting, native) == KeyStore::Plaintext) <==> (setting matches Some(s)
            && trim(s) == "plaintext"@),
{
}

/// The status of a stored token: missing when nothing usable is stored,
/// otherwise the outcome of the check when one was made (`checked`), or
/// just stored.
pub open spec fn key_status_spec(stored: Option<Seq<char>>, checked: Option<bool>) -> KeyStatus {
    if !given(stored) {
        KeyStatus::Missing
    } else {
        match checked {
            None => KeyStatus::Stored,
            Some(true) => KeyStatus::Valid,
            Some(false) => KeyStatus::Invalid,
        }
    }
}

/// See [`key_status_spec`].
pub fn key_status(stored: Option<&str>, checked: Option<bool>) -> (r: KeyStatus)
    ensures
        r == key_status_spec(opt_str_view(stored), checked),
{
    let usable = match stored {
        Some(k) => !is_blank_str(k),
        None => false,
    };
    if !usable {
        KeyStatus::Missing
    } else {
        match checked {
            None => KeyStatus::Stored,
            Some(true) => KeyStatus::Valid,
            Some(false) => KeyStatus::Invalid,
        }
    }
}

/// What a check of a token tells, given the class of the error the API
/// call ended with (`None` when it succeeded): success means valid, a
/// rejected token means invalid, and any other failure tells nothing (the
/// failure is reported instead).
pub open spec fn check_outcome_spec(failure: Option<ErrorCode>) -> Option<bool> {
    match failure {
        None => Some(true),
        Some(ErrorCode::AuthRequired) => Some(false),
        Some(_) => None,
    }
}

/// See [`check_outcome_spec`].
pub fn check_outcome(failure: Option<ErrorCode>) -> (r: Option<bool>)
    ensures
        r == check_outcome_spec(failure),
{
    match failure {
        None => Some(true),
        Some(ErrorCode::AuthRequired) => Some(false),
        Some(_) => None,
    }
}

/// The token to store for a new account: refused when blank, or when the
/// account exists and replacing it was not asked for; otherwise trimmed.
pub open spec fn new_token_spec(name: Seq<char>, token: Seq<char>, exists: bool, force: bool) -> Result<Seq<char>, ErrorV> {
    if !given(Some(token)) {
        Err(
            ErrorV {
                remediation: Some("producthunt accounts add "@ + name + " --api-key <key>"@),
                ..new_spec(ErrorCode::InvalidInput, "No API token was given."@)
            },
        )
    } else if exists && !force {
        Err(
            ErrorV {
                remediation: Some(
                    "producthunt accounts add "@ + name + " --api-key <key> --force"@,
                ),
                ..new_spec(ErrorCode::InvalidInput, "Account '"@ + name + "' already exists."@)
            },
        )
    } else {
        Ok(trim(token))
    }
}

/// A token that is accepted for storage is never blank, and an existing
/// account's token is replaced only when that was asked for.
pub proof fn lemma_new_token_usable(name: Seq<char>, token: Seq<char>, exists: bool, force: bool)
    ensures
        new_token_spec(name, token, exists, force) matches Ok(t) ==> !is_blank(t) && t.len() > 0,
        exists && !force ==> new_token_spec(name, token, exists, force) is Err,
{
    if !is_blank(token) {
        lemma_trim_not_blank(token);
    }
}

fn join3(a: &str, b: &str, c: &str) -> (r: String)
    ensures
        r@ == a@ + b@ + c@,
{
    let mut s = String::from_str(a);
    s.append(b);
    s.append(c);
    s
}

/// See [`new_token_spec`].
pub fn new_token(name: &str, token: &str, exists: bool, force: bool) -> (r: Result<String, Error>)
    ensures
        match r {
            Ok(t) => new_token_spec(name@, token@, exists, force) == Ok::<Seq<char>, ErrorV>(t@),
            Err(e) => new_token_spec(name@, token@, exists, force) == Err::<Seq<char>, ErrorV>(e@),
        },
{
    if is_blank_str(token) {
        let fix = join3("producthunt accounts add ", name, " --api-key <key>");
        return Err(Error::new(ErrorCode::InvalidInput, "No API token was given.").fix(fix.as_str()));
    }
    if exists && !force {
        let message = join3("Account '", name, "' already exists.");
        let fix = join3("producthunt accounts add ", name, " --api-key <key> --force");
        return Err(Error::new(ErrorCode::InvalidInput, message.as_str()).fix(fix.as_str()));
    }
    Ok(trimmed(token))
}

/// The record kept for an account whose token was checked with the answer
/// `me` of `users/me` (its identity and user id), or that was stored
/// without a check (`None`: both empty).
pub open spec fn account_spec(me: Option<JsonV>) -> AccountV {
    match me {
        Some(m) => AccountV { identity: pick(m, identity_keys()), user_id: pick(m, id_keys()) },
        None => AccountV { identity: Seq::empty(), user_id: Seq::empty() },
    }
}

/// See [`account_spec`].
pub fn account_from(me: Option<&Json>) -> (r: AccountConfig)
    ensures
        r@ == account_spec(
            match me {
                Some(m) => Some(m@),
                None => None,
            },
        ),
{
    match me {
        Some(m) => AccountConfig { identity: describe(m), user_id: user_id(m) },
        None => AccountConfig { identity: String::new(), user_id: String::new() },
    }
}

/// The report of a stored account: `status`, `name`, `identity`, `userId`.
pub open spec fn added_spec(name: Seq<char>, a: AccountV) -> JsonV {
    JsonV::Object(
        seq![
            ("status"@, JsonV::Str("added"@)),
            ("name"@, JsonV::Str(name)),
            ("identity"@, JsonV::Str(a.identity)),
            ("userId"@, JsonV::Str(a.user_id)),
        ],
    )
}

/// See [`added_spec`].
pub fn added_report(name: &str, account: &AccountConfig) -> (r: Json)
    ensures
        r@ == added_spec(name@, account@),
{
    let mut m: Vec<(String, Json)> = Vec::new();
    proof {
        assert(members_view(m@) =~= Seq::empty());
    }
    push_member(&mut m, "status", Json::string("added"));
    push_member(&mut m, "name", Json::string(name));
    push_member(&mut m, "identity", Json::string(account.identity.as_str()));
    push_member(&mut m, "userId", Json::string(account.user_id.as_str()));
    let r = object(m);
    assert(members_view(m@) =~= added_spec(name@, account@)->Object_0);
    r
}

/// One listed account: `name`, `identity`, `keyStatus`.
pub open spec fn listed_spec(e: (Seq<char>, AccountV), k: KeyStatus) -> JsonV {
    JsonV::Object(
        seq![
            ("name"@, JsonV::Str(e.0)),
            ("identity"@, JsonV::Str(e.1.identity)),
            ("keyStatus"@, JsonV::Str(status_name(k))),
        ],
    )
}

/// The listing of the accounts, in the order of their names, each with its
/// key status: `backend` (the key store in use), `count` and `accounts`.
pub open spec fn list_spec(
    entries: Seq<(Seq<char>, AccountV)>,
    statuses: Seq<KeyStatus>,
    store: KeyStore,
) -> JsonV {
    JsonV::Object(
        seq![
            ("backend"@, JsonV::Str(store_name(store))),
            ("count"@, JsonV::Number(decimal(entries.len()))),
            (
                "accounts"@,
                JsonV::Array(Seq::new(entries.len(), |i: int| listed_spec(entries[i], statuses[i]))),
            ),
        ],
    )
}

/// See [`list_spec`]; `statuses[i]` belongs to the `i`-th account in name order.
pub fn list_report(config: &Config, statuses: &Vec<KeyStatus>, store: KeyStore) -> (r: Json)
    requires
        statuses@.len() == config@.len(),
    ensures
        r@ == list_spec(config@, statuses@, store),
{
    let entries = config.sorted();
    let ghost s = config@;
    let mut items: Vec<Json> = Vec::new();
    let mut i: usize = 0;
    while i < entries.len()
        invariant
            s == entries_view(entries@),
            statuses@.len() == s.len(),
            i <= s.len(),
            items@.len() == i,
            items_view(items@) =~= Seq::new(i as nat, |k: int| listed_spec(s[k], statuses@[k])),
        decreases entries.len() - i,
    {
        let mut m: Vec<(String, Json)> = Vec::new();
        proof {
            assert(members_view(m@) =~= Seq::empty());
        }
        push_member(&mut m, "name", Json::string(entries[i].0.as_str()));
        push_member(&mut m, "identity", Json::string(entries[i].1.identity.as_str()));
        push_member(&mut m, "keyStatus", Json::string(statuses[i].as_str()));
        let item = object(m);
        assert(members_view(m@) =~= listed_spec(s[i as int], statuses@[i as int])->Object_0);
        let ghost before = items@;
        items.push(item);
        proof {
            lemma_items_view_push(before, item);
            assert(items@ =~= before.push(item));
        }
        i = i + 1;
    }
    let mut m: Vec<(String, Json)> = Vec::new();
    proof {
        assert(members_view(m@) =~= Seq::empty());
    }
    push_member(&mut m, "backend", Json::string(store.as_str()));
    push_member(&mut m, "count", Json::number(entries.len() as u64));
    push_member(&mut m, "accounts", Json::Array(items));
    let r = object(m);
    assert(members_view(m@) =~= list_spec(s, statuses@, store)->Object_0);
    r
}

/// The report of a checked account: `name`, `keyStatus`.
pub open spec fn tested_spec(name: Seq<char>, k: KeyStatus) -> JsonV {
    JsonV::Object(seq![("name"@, JsonV::Str(name)), ("keyStatus"@, JsonV::Str(status_name(k)))])
}

/// See [`tested_spec`].
pub fn tested_report(name: &str, status: KeyStatus) -> (r: Json)
    ensures
        r@ == tested_spec(name@, status),
{
    let mut m: Vec<(String, Json)> = Vec::new();
    proof {
        assert(members_view(m@) =~= Seq::empty());
    }
    push_member(&mut m, "name", Json::string(name));
    push_member(&mut m, "keyStatus", Json::string(status.as_str()));
    let r = object(m);
    assert(members_view(m@) =~= tested_spec(name@, status)->Object_0);
    r
}

/// The next step of `accounts remove`.
#[derive(Debug)]
pub enum RemovalStep {
    /// Ask the user this question and hand the answer to [`confirmation`].
    Confirm(String),
    /// Remove the account and its stored token.
    Proceed,
    /// Stop with this error.
    Fail(Error),
}

/// The content of a [`RemovalStep`].
pub enum RemovalStepV {
    Confirm(Seq<char>),
    Proceed,
    Fail(ErrorV),
}

impl View for RemovalStep {
    type V = RemovalStepV;

    open spec fn view(&self) -> RemovalStepV {
        match self {
            RemovalStep::Confirm(q) => RemovalStepV::Confirm(q@),
            RemovalStep::Proceed => RemovalStepV::Proceed,
            RemovalStep::Fail(e) => RemovalStepV::Fail(e@),
        }
    }
}

/// The question asked before an account is removed.
pub open spec fn removal_question(name: Seq<char>) -> Seq<char> {
    "Remove account '"@ + name + "' and delete its stored token? [y/N] "@
}

/// The first step of removing an account: an account that is not configured
/// cannot be removed; otherwise the removal goes ahead when `--yes` skipped
/// the prompt, and the user is asked first when it did not.
pub open spec fn removal_spec(name: Seq<char>, yes: bool, exists: bool) -> RemovalStepV {
    if !exists {
        RemovalStepV::Fail(
            ErrorV {
                remediation: Some("producthunt accounts list"@),
                ..new_spec(ErrorCode::NoAccount, "No account named '"@ + name + "'."@)
            },
        )
    } else if !yes {
        RemovalStepV::Confirm(removal_question(name))
    } else {
        RemovalStepV::Proceed
    }
}

/// The answers that confirm a removal, once surrounding whitespace is trimmed.
pub open spec fn affirmative(answer: Seq<char>) -> bool {
    seq!["y"@, "Y"@, "yes"@, "Yes"@, "YES"@].contains(trim(answer))
}

/// The step after the user answered the question: the removal goes ahead on
/// an affirmative answer and is refused on any other, an empty one included.
pub open spec fn confirmation_spec(name: Seq<char>, answer: Seq<char>) -> RemovalStepV {
    if affirmative(answer) {
        RemovalStepV::Proceed
    } else {
        RemovalStepV::Fail(
            ErrorV {
                remediation: Some("producthunt accounts remove "@ + name + " --yes"@),
                ..new_spec(ErrorCode::InvalidInput, "Removing '"@ + name + "' was not confirmed."@)
            },
        )
    }
}

/// An account is removed only with consent: the removal goes ahead at once
/// only for a configured account with `--yes`, the user is asked only when
/// `--yes` is missing, and an answer lets it go ahead only when affirmative.
pub proof fn lemma_removal_needs_consent(name: Seq<char>, yes: bool, exists: bool, answer: Seq<char>)
    ensures
        (removal_spec(name, yes, exists) is Proceed) <==> (yes && exists),
        (removal_spec(name, yes, exists) is Confirm) <==> (!yes && exists),
        (confirmation_spec(name, answer) is Proceed) <==> affirmative(answer),
{
}

/// See [`removal_spec`].
pub fn removal(name: &str, yes: bool, exists: bool) -> (r: RemovalStep)
    ensures
        r@ == removal_spec(name@, yes, exists),
{
    if !exists {
        let message = join3("No account named '", name, "'.");
        return RemovalStep::Fail(
            Error::new(ErrorCode::NoAccount, message.as_str()).fix("producthunt accounts list"),
        );
    }
    if !yes {
        return RemovalStep::Confirm(
            join3("Remove account '", name, "' and delete its stored token? [y/N] "),
        );
    }
    RemovalStep::Proceed
}

/// See [`affirmative`].
fn is_affirmative(answer: &str) -> (r: bool)
    ensures
        r == affirmative(answer@),
{
    let a = trimmed(answer);
    let words = vec!["y", "Y", "yes", "Yes", "YES"];
    assert(words@.map_values(|w: &str| w@) =~= seq!["y"@, "Y"@, "yes"@, "Yes"@, "YES"@]);
    let mut i: usize = 0;
    while i < words.len()
        invariant
            i <= words@.len(),
            a@ == trim(answer@),
            words@.map_values(|w: &str| w@) == seq!["y"@, "Y"@, "yes"@, "Yes"@, "YES"@],
            forall|k: int| 0 <= k < i ==> seq!["y"@, "Y"@, "yes"@, "Yes"@, "YES"@][k] != a@,
        decreases words.len() - i,
    {
        if crate::text::str_eq(words[i], a.as_str()) {
            assert(seq!["y"@, "Y"@, "yes"@, "Yes"@, "YES"@][i as int] == a@);
            return true;
        }
        i = i + 1;
    }
    false
}

/// See [`confirmation_spec`].
pub fn confirmation(name: &str, answer: &str) -> (r: RemovalStep)
    ensures
        r@ == confirmation_spec(name@, answer@),
{
    if is_affirmative(answer) {
        RemovalStep::Proceed
    } else {
        let message = join3("Removing '", name, "' was not confirmed.");
        let fix = join3("producthunt accounts remove ", name, " --yes");
        RemovalStep::Fail(Error::new(ErrorCode::InvalidInput, message.as_str()).fix(fix.as_str()))
    }
}

/// The report of a removed account: `status`, `name`.
pub open spec fn removed_spec(name: Seq<char>) -> JsonV {
    JsonV::Object(seq![("status"@, JsonV::Str("removed"@)), ("name"@, JsonV::Str(name))])
}

/// See [`removed_spec`].
pub fn removed_report(name: &str) -> (r: Json)
    ensures
        r@ == removed_spec(name@),
{
    let mut m: Vec<(String, Json)> = Vec::new();
    proof {
        assert(members_view(m@) =~= Seq::empty());
    }
    push_member(&mut m, "status", Json::string("removed"));
    push_member(&mut m, "name", Json::string(name));
    let r = object(m);
    assert(members_view(m@) =~= removed_spec(name@)->Object_0);
    r
}

} // verus!
