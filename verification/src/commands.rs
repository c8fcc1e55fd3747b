//! What each command does: the dispatcher, and the calls to the API that the
//! authenticated commands make.

pub mod accounts;
pub mod scrape;
pub mod search;

use vstd::prelude::*;
use crate::cli::{AccountsCommand, AuthArgs, Command, LoginArgs};
use crate::client::{Client, ClientV, Method, Request, RequestV, actor_path, request_spec};
use crate::json::{Json, JsonV};

verus! {

/// The call an authenticated command makes.
#[derive(Debug)]
pub enum CallKind {
    /// Run the scraper actor with this search input.
    Search(Json),
    /// Run the scraper actor with this scrape input.
    Scrape(Json),
    /// Ask who the token belongs to.
    Me,
}

/// The content of a [`CallKind`].
pub enum CallKindV {
    Search(JsonV),
    Scrape(JsonV),
    Me,
}

/// An authenticated call: the account selection as given on the command
/// line, and the call to make once the account is resolved.
#[derive(Debug)]
pub struct ApiCall {
    pub account: Option<String>,
    pub api_key: Option<String>,
    pub kind: CallKind,
}

/// The content of an [`ApiCall`].
pub struct ApiCallV {
    pub account: Option<Seq<char>>,
    pub api_key: Option<Seq<char>>,
    pub kind: CallKindV,
}

impl View for ApiCall {
    type V = ApiCallV;

    open spec fn view(&self) -> ApiCallV {
        ApiCallV {
            account: crate::account::opt_string_view(self.account),
            api_key: crate::account::opt_string_view(self.api_key),
            kind: match self.kind {
                CallKind::Search(j) => CallKindV::Search(j@),
                CallKind::Scrape(j) => CallKindV::Scrape(j@),
                CallKind::Me => CallKindV::Me,
            },
        }
    }
}

/// The progress note shown on a terminal while a call runs.
pub open spec fn notice_spec(kind: CallKindV, account_name: Seq<char>) -> Seq<char> {
    match kind {
        CallKindV::Search(_) => "Searching Product Hunt (this may take 30–60s)..."@,
        CallKindV::Scrape(_) => "Scraping Product Hunt (this may take 30–60s)..."@,
        CallKindV::Me => "Authenticating with Apify as account '"@ + account_name + "'..."@,
    }
}

/// The request a call makes with a client: searches and scrapes run the
/// scraper actor with their input, `me` asks for `users/me`.
pub open spec fn call_request(kind: CallKindV, c: ClientV) -> RequestV {
    match kind {
        CallKindV::Search(input) => request_spec(c, Method::Post, actor_path(c.token), Some(input)),
        CallKindV::Scrape(input) => request_spec(c, Method::Post, actor_path(c.token), Some(input)),
        CallKindV::Me => request_spec(c, Method::Get, "users/me"@, None),
    }
}

impl ApiCall {
    /// The note to show on a terminal while the call runs, for the account
    /// it was resolved to.
    pub fn notice(&self, account_name: &str) -> (r: String)
        ensures
            r@ == notice_spec(self@.kind, account_name@),
    {
        match &self.kind {
            CallKind::Search(_) => String::from_str("Searching Product Hunt (this may take 30–60s)..."),
            CallKind::Scrape(_) => String::from_str("Scraping Product Hunt (this may take 30–60s)..."),
            CallKind::Me => {
                let mut s = String::from_str("Authenticating with Apify as account '");
                s.append(account_name);
                s.append("'...");
                s
            },
        }
    }

    /// The request to send with the client of the resolved account.
    pub fn request(self, client: &Client) -> (r: Request)
        ensures
            r@ == call_request(self@.kind, client@),
    {
        match self.kind {
            CallKind::Search(input) => client.search(input),
            CallKind::Scrape(input) => client.scrape(input),
            CallKind::Me => client.me(),
        }
    }
}

/// What a command comes down to.
#[derive(Debug)]
pub enum Task {
    /// An authenticated call to the API, whose answer is printed.
    Call(ApiCall),
    /// Log in (store a token under an account name).
    Login(LoginArgs),
    /// Manage the configured accounts.
    Accounts(AccountsCommand),
    /// Print the agent manual.
    Readme,
}

/// `me`: ask the API who the token belongs to.
fn me(args: AuthArgs) -> (r: ApiCall)
    ensures
        r.account == args.account,
        r.api_key == args.api_key,
        r@.kind == CallKindV::Me,
{
    ApiCall { account: args.account, api_key: args.api_key, kind: CallKind::Me }
}

/// Dispatches a command: `search`, `scrape` and `me` become authenticated
/// calls, `login` and `accounts` keep their arguments, `agent-readme`
/// prints the manual.
pub fn run(cmd: Command) -> (r: Task)
    ensures
        match cmd {
            Command::Search(a) => r matches Task::Call(c) && c.account == a.account && c.api_key
                == a.api_key && c@.kind == CallKindV::Search(search::input_spec(a)),
            Command::Scrape(a) => r matches Task::Call(c) && c.account == a.account && c.api_key
                == a.api_key && c@.kind == CallKindV::Scrape(scrape::input_spec(a)),
            Command::Me(a) => r matches Task::Call(c) && c.account == a.account && c.api_key
                == a.api_key && c@.kind == CallKindV::Me,
            Command::Login(a) => r == Task::Login(a),
            Command::Accounts(a) => r == Task::Accounts(a),
            Command::AgentReadme => r == Task::Readme,
        },
{
    match cmd {
        Command::Search(args) => Task::Call(search::run(args)),
        Command::Scrape(args) => Task::Call(scrape::run(args)),
        Command::Me(args) => Task::Call(me(args)),
        Command::Login(args) => Task::Login(args),
        Command::Accounts(cmd) => Task::Accounts(cmd),
        Command::AgentReadme => Task::Readme,
    }
}

} // verus!
