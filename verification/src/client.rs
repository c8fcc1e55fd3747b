//! Requests to the Apify API that drives the Product Hunt scraper actor, and
//! the interpretation of its answers. Sending the request over HTTP is left
//! to the caller; this module decides what is sent and what an answer means.

use vstd::prelude::*;
use crate::error::{Error, ErrorCode, ErrorV, exit_code_spec, new_spec};
use crate::json::{
    Json, JsonV, as_str_spec, get_spec, json_bytes, json_from_slice, json_from_str, lossy_utf8,
    parse_slice, parse_str, to_json_bytes, utf8_lossy,
};
use crate::text::{decimal, decimal_string, is_ascii_whitespace, is_ascii_ws, is_blank, trim, trimmed};

verus! {

/// The Apify API root used when none is configured.
pub const DEFAULT_BASE: &'static str = "https://api.apify.com/v2/";

/// The endpoint that runs the scraper actor and returns its dataset items.
pub const ACTOR_ENDPOINT: &'static str = "acts/cloud9_ai~producthunt-scraper/run-sync-get-dataset-items";

/// `value.get("error").and_then(|e| e.get("message").or_else(|| e.get("error")))
///     .or_else(|| value.get("message")).and_then(as_str)`, or nothing.
pub open spec fn message_in(value: JsonV) -> Seq<char> {
    let nested = match get_spec(value, "error"@) {
        Some(e) => match get_spec(e, "message"@) {
            Some(m) => Some(m),
            None => get_spec(e, "error"@),
        },
        None => None,
    };
    let found = match nested {
        Some(x) => Some(x),
        None => get_spec(value, "message"@),
    };
    match found {
        Some(x) => match as_str_spec(x) {
            Some(s) => s,
            None => Seq::empty(),
        },
        None => Seq::empty(),
    }
}

/// The message that the API put in an error body, or nothing when the body
/// is not JSON or holds none.
pub open spec fn api_message(body: Seq<char>) -> Seq<char> {
    match json_from_str(body) {
        Some(v) => message_in(v),
        None => Seq::empty(),
    }
}

/// `HTTP <status>`, followed by `: <body>` when the body is not empty.
pub open spec fn status_detail(status: u16, body: Seq<char>) -> Seq<char> {
    let head = "HTTP "@ + decimal(status as nat);
    if body.len() == 0 {
        head
    } else {
        head + ": "@ + body
    }
}

/// The API's own message when it gave one, otherwise the fallback.
pub open spec fn or_default(api: Seq<char>, fallback: Seq<char>) -> Seq<char> {
    if api.len() == 0 {
        fallback
    } else {
        api
    }
}

/// The error that an HTTP status outside 2xx stands for, before its detail is set.
pub open spec fn status_class(status: u16, body: Seq<char>) -> ErrorV {
    let api = api_message(body);
    if status == 401 {
        ErrorV {
            remediation: Some(
                "Replace it: producthunt login <name> --force or set APIFY_TOKEN=<token>"@,
            ),
            ..new_spec(
                ErrorCode::AuthRequired,
                or_default(api, "The Apify API token was rejected or is invalid."@),
            )
        }
    } else if status == 403 {
        ErrorV {
            remediation: Some(
                "Check your Apify account and token permissions: https://console.apify.com/account/integrations"@,
            ),
            ..new_spec(
                ErrorCode::AuthRequired,
                or_default(
                    api,
                    "Access forbidden. Your Apify account does not have permission for this resource."@,
                ),
            )
        }
    } else if status == 404 {
        new_spec(ErrorCode::NotFound, or_default(api, "The requested resource was not found."@))
    } else if status == 429 {
        ErrorV {
            remediation: Some("Back off before retrying."@),
            ..new_spec(ErrorCode::RateLimited, "Rate limited by the Apify API."@)
        }
    } else if status == 400 || status == 422 {
        new_spec(ErrorCode::InvalidInput, or_default(api, "The Apify API refused the request."@))
    } else if status >= 500 {
        ErrorV {
            remediation: Some("Retry; if it persists Apify may be experiencing an outage."@),
            ..new_spec(ErrorCode::Network, "The Apify API returned a server error."@)
        }
    } else {
        new_spec(ErrorCode::Error, "The request failed."@)
    }
}

/// The error reported for an HTTP status outside 2xx with the given body.
pub open spec fn status_error_spec(status: u16, body: Seq<char>) -> ErrorV {
    ErrorV { detail: Some(status_detail(status, body)), ..status_class(status, body) }
}

/// The message the API gave in an error body (see [`api_message`]).
fn api_message_of(body: &str) -> (r: String)
    ensures
        r@ == api_message(body@),
{
    match parse_str(body) {
        Some(v) => message_of(&v),
        None => String::new(),
    }
}

/// The message in a parsed error body (see [`message_in`]): `error.message`,
/// else `error.error`, else `message`, when it is a string; otherwise nothing.
pub fn message_of(value: &Json) -> (r: String)
    ensures
        r@ == message_in(value@),
{
    let nested = match value.get("error") {
        Some(e) => match e.get("message") {
            Some(m) => Some(m),
            None => e.get("error"),
        },
        None => None,
    };
    let found = match nested {
        Some(x) => Some(x),
        None => value.get("message"),
    };
    match found {
        Some(x) => match x.as_str() {
            Some(s) => String::from_str(s),
            None => String::new(),
        },
        None => String::new(),
    }
}

/// `HTTP <status>[: <body>]`.
fn detail_of(status: u16, body: &str) -> (r: String)
    ensures
        r@ == status_detail(status, body@),
{
    let mut d = String::from_str("HTTP ");
    let n = decimal_string(status as u64);
    d.append(n.as_str());
    if body.unicode_len() != 0 {
        d.append(": ");
        d.append(body);
    }
    d
}

/// The error for an HTTP status outside 2xx: 401 and 403 ask for
/// authentication, 404 is not found, 429 is rate limiting, 400 and 422 are
/// invalid input, 5xx is a network-class failure and anything else is
/// unclassified. The API's own message replaces the generic one where the
/// body carries it (except for 429 and 5xx), and the detail always gives
/// the status and the body.
pub fn status_error(status: u16, body: &str) -> (r: Error)
    ensures
        r@ == status_error_spec(status, body@),
{
    let api = api_message_of(body);
    let has_api = api.unicode_len() != 0;
    let e = if status == 401 {
        Error::new(
            ErrorCode::AuthRequired,
            if has_api { api.as_str() } else { "The Apify API token was rejected or is invalid." },
        ).fix("Replace it: producthunt login <name> --force or set APIFY_TOKEN=<token>")
    } else if status == 403 {
        Error::new(
            ErrorCode::AuthRequired,
            if has_api {
                api.as_str()
            } else {
                "Access forbidden. Your Apify account does not have permission for this resource."
            },
        ).fix(
            "Check your Apify account and token permissions: https://console.apify.com/account/integrations",
        )
    } else if status == 404 {
        Error::new(
            ErrorCode::NotFound,
            if has_api { api.as_str() } else { "The requested resource was not found." },
        )
    } else if status == 429 {
        Error::new(ErrorCode::RateLimited, "Rate limited by the Apify API.").fix(
            "Back off before retrying.",
        )
    } else if status == 400 || status == 422 {
        Error::new(
            ErrorCode::InvalidInput,
            if has_api { api.as_str() } else { "The Apify API refused the request." },
        )
    } else if status >= 500 {
        Error::new(ErrorCode::Network, "The Apify API returned a server error.").fix(
            "Retry; if it persists Apify may be experiencing an outage.",
        )
    } else {
        Error::new(ErrorCode::Error, "The request failed.")
    };
    let detail = detail_of(status, body);
    e.detail(detail.as_str())
}


/// The exit code of an HTTP failure depends on its status alone: 401 and
/// 403 exit with 3 (auth_required), 404 with 4 (not_found), 429 with 5
/// (rate_limited), 400 and 422 with 6 (invalid_input), 5xx with 2
/// (network) and any other status with 1 (error).
pub proof fn lemma_status_exit_code(status: u16, body: Seq<char>)
    ensures
        exit_code_spec(status_error_spec(status, body).code) == if status == 401 || status == 403 {
            3int
        } else if status == 404 {
            4int
        } else if status == 429 {
            5int
        } else if status == 400 || status == 422 {
            6int
        } else if status >= 500 {
            2int
        } else {
            1int
        },
{
}

/// An answer with a 2xx status is never an error, and an answer with any
/// other status always is: the error for that status and the trimmed body.
pub proof fn lemma_read_fails_iff_status_fails(status: u16, bytes: Seq<u8>)
    ensures
        (read_spec(status, bytes) is Err) <==> !(200 <= status < 300),
        read_spec(status, bytes) matches Err(e) ==> e == status_error_spec(
            status,
            trim(utf8_lossy(bytes)),
        ),
{
}

/// A successful answer means its body: a body that is JSON (and not blank)
/// is exactly the JSON value, a body that is not JSON is kept as its text,
/// and a blank body is an empty object.
pub proof fn lemma_read_success_is_the_body(status: u16, bytes: Seq<u8>)
    requires
        200 <= status < 300,
    ensures
        (forall|i: int| 0 <= i < bytes.len() ==> is_ascii_ws(#[trigger] bytes[i])) ==> read_spec(
            status,
            bytes,
        ) == Ok::<JsonV, ErrorV>(JsonV::Object(Seq::empty())),
        (exists|i: int| 0 <= i < bytes.len() && !is_ascii_ws(#[trigger] bytes[i])) ==> read_spec(
            status,
            bytes,
        ) == match json_from_slice(bytes) {
            Some(v) => Ok::<JsonV, ErrorV>(v),
            None => Ok(JsonV::Str(utf8_lossy(bytes))),
        },
{
}

/// Every byte is ASCII whitespace (an empty body counts).
pub open spec fn all_ascii_ws(bytes: Seq<u8>) -> bool {
    forall|i: int| 0 <= i < bytes.len() ==> is_ascii_ws(#[trigger] bytes[i])
}

/// What an answer of the API means: a status outside 2xx is the error
/// [`status_error_spec`] for the trimmed body; an empty or all-whitespace body
/// is an empty object; a JSON body is its value; any other body is kept as a
/// string.
pub open spec fn read_spec(status: u16, bytes: Seq<u8>) -> Result<JsonV, ErrorV> {
    if !(200 <= status < 300) {
        Err(status_error_spec(status, trim(utf8_lossy(bytes))))
    } else if all_ascii_ws(bytes) {
        Ok(JsonV::Object(Seq::empty()))
    } else {
        match json_from_slice(bytes) {
            Some(v) => Ok(v),
            None => Ok(JsonV::Str(utf8_lossy(bytes))),
        }
    }
}

/// The view of a result.
pub open spec fn result_view(r: Result<Json, Error>) -> Result<JsonV, ErrorV> {
    match r {
        Ok(j) => Ok(j@),
        Err(e) => Err(e@),
    }
}

/// Interprets an answer of the API (see [`read_spec`]).
pub fn read(status: u16, bytes: &[u8]) -> (r: Result<Json, Error>)
    ensures
        result_view(r) == read_spec(status, bytes@),
{
    if !(200 <= status && status < 300) {
        let text = lossy_utf8(bytes);
        let body = trimmed(text.as_str());
        return Err(status_error(status, body.as_str()));
    }
    let mut i: usize = 0;
    let mut blank = true;
    while i < bytes.len()
        invariant
            i <= bytes@.len(),
            blank == (forall|k: int| 0 <= k < i ==> is_ascii_ws(#[trigger] bytes@[k])),
        decreases bytes.len() - i,
    {
        if !is_ascii_whitespace(bytes[i]) {
            blank = false;
        }
        i = i + 1;
    }
    if blank {
        return Ok(Json::empty_object());
    }
    match parse_slice(bytes) {
        Some(v) => Ok(v),
        None => Ok(Json::Str(lossy_utf8(bytes))),
    }
}

/// The error for a request that never got an answer: a timeout, or any other
/// transport failure whose description becomes the detail.
pub open spec fn transport_error_spec(timed_out: bool, description: Seq<char>) -> ErrorV {
    if timed_out {
        ErrorV {
            remediation: Some("Retry once, then stop."@),
            ..new_spec(ErrorCode::Network, "The request timed out."@)
        }
    } else {
        ErrorV {
            detail: Some(description),
            remediation: Some("Retry once, then stop."@),
            ..new_spec(ErrorCode::Network, "Could not reach the Apify API."@)
        }
    }
}

/// The error for a transport failure (see [`transport_error_spec`]).
pub fn transport_error(timed_out: bool, description: &str) -> (r: Error)
    ensures
        r@ == transport_error_spec(timed_out, description@),
{
    if timed_out {
        Error::new(ErrorCode::Network, "The request timed out.").fix("Retry once, then stop.")
    } else {
        Error::new(ErrorCode::Network, "Could not reach the Apify API.").detail(description).fix(
            "Retry once, then stop.",
        )
    }
}

/// The HTTP method of a request.
#[derive(Clone, Copy, Debug, PartialEq, Eq, Structural)]
pub enum Method {
    Get,
    Post,
}

/// A request to send to the API.
#[derive(Debug)]
pub struct Request {
    pub method: Method,
    pub url: String,
    pub headers: Vec<(String, String)>,
    pub body: Option<Vec<u8>>,
}

/// The content of a [`Request`].
pub struct RequestV {
    pub method: Method,
    pub url: Seq<char>,
    pub headers: Seq<(Seq<char>, Seq<char>)>,
    pub body: Option<Seq<u8>>,
}

/// The views of header pairs.
pub open spec fn headers_view(h: Seq<(String, String)>) -> Seq<(Seq<char>, Seq<char>)> {
    h.map_values(|p: (String, String)| (p.0@, p.1@))
}

impl View for Request {
    type V = RequestV;

    open spec fn view(&self) -> RequestV {
        RequestV {
            method: self.method,
            url: self.url@,
            headers: headers_view(self.headers@),
            body: opt_bytes_view(self.body),
        }
    }
}

/// The view of optional bytes.
pub open spec fn opt_bytes_view(b: Option<Vec<u8>>) -> Option<Seq<u8>> {
    match b {
        Some(v) => Some(v@),
        None => None,
    }
}

/// A body as it is sent: the value written as compact JSON.
pub open spec fn encoded(body: Option<JsonV>) -> Option<Seq<u8>> {
    match body {
        Some(j) => Some(json_bytes(j)),
        None => None,
    }
}

/// The view of an optional JSON value.
pub open spec fn opt_json_view(j: Option<Json>) -> Option<JsonV> {
    match j {
        Some(v) => Some(v@),
        None => None,
    }
}

/// The view of an optional string slice.
pub open spec fn opt_str_view(s: Option<&str>) -> Option<Seq<char>> {
    match s {
        Some(t) => Some(t@),
        None => None,
    }
}

/// The API root: the configured URL when one is given and not blank,
/// otherwise the default, with a `/` appended unless it ends with one.
pub open spec fn base_spec(api_url: Option<Seq<char>>) -> Seq<char> {
    let b = match api_url {
        Some(u) => if is_blank(u) {
            DEFAULT_BASE@
        } else {
            u
        },
        None => DEFAULT_BASE@,
    };
    if b.len() > 0 && b[b.len() - 1] == '/' {
        b
    } else {
        b.push('/')
    }
}

/// `path` without one leading `/`.
pub open spec fn strip_slash(path: Seq<char>) -> Seq<char> {
    if path.len() > 0 && path[0] == '/' {
        path.subrange(1, path.len() as int)
    } else {
        path
    }
}

/// The content of a client: the API root and the bearer token.
pub struct ClientV {
    pub base: Seq<char>,
    pub token: Seq<char>,
}

/// The request a client makes: the URL is the root followed by the path
/// without its leading `/`; the token goes in a bearer `Authorization`
/// header, JSON is accepted, and a body is declared as JSON and sent as the
/// compact JSON bytes of the value.
pub open spec fn request_spec(c: ClientV, method: Method, path: Seq<char>, body: Option<JsonV>) -> RequestV {
    let common = seq![("Authorization"@, "Bearer "@ + c.token), ("Accept"@, "application/json"@)];
    RequestV {
        method,
        url: c.base + strip_slash(path),
        headers: match body {
            Some(_) => common.push(("Content-Type"@, "application/json"@)),
            None => common,
        },
        body: encoded(body),
    }
}

/// The path of the scraper endpoint with the token as query parameter.
pub open spec fn actor_path(token: Seq<char>) -> Seq<char> {
    ACTOR_ENDPOINT@ + "?token="@ + token
}

/// A client of the Apify API for one token.
#[derive(Debug)]
pub struct Client {
    base: String,
    token: String,
}

impl View for Client {
    type V = ClientV;

    closed spec fn view(&self) -> ClientV {
        ClientV { base: self.base@, token: self.token@ }
    }
}

/// Concatenation of two strings.
fn concat(a: &str, b: &str) -> (r: String)
    ensures
        r@ == a@ + b@,
{
    let mut s = String::from_str(a);
    s.append(b);
    s
}

impl Client {
    /// A client for `token` (trimmed) against the API root `api_url` (see
    /// [`base_spec`]); `api_url` is what the environment configures, if anything.
    pub fn new(token: &str, api_url: Option<&str>) -> (r: Client)
        ensures
            r@ == (ClientV { base: base_spec(opt_str_view(api_url)), token: trim(token@) }),
    {
        let mut base = match api_url {
            Some(u) => if crate::text::is_blank_str(u) {
                String::from_str(DEFAULT_BASE)
            } else {
                String::from_str(u)
            },
            None => String::from_str(DEFAULT_BASE),
        };
        let n = base.as_str().unicode_len();
        if !(n > 0 && base.as_str().get_char(n - 1) == '/') {
            crate::text::push_char(&mut base, '/');
        }
        Client { base, token: trimmed(token) }
    }

    /// The token this client sends.
    pub fn token(&self) -> (r: &str)
        ensures
            r@ == self@.token,
    {
        self.token.as_str()
    }

    fn send(&self, method: Method, path: &str, body: Option<Json>) -> (r: Request)
        ensures
            r@ == request_spec(self@, method, path@, opt_json_view(body)),
    {
        let n = path.unicode_len();
        let clean = if n > 0 && path.get_char(0) == '/' {
            path.substring_char(1, n)
        } else {
            path
        };
        let url = concat(self.base.as_str(), clean);
        let mut headers: Vec<(String, String)> = Vec::new();
        headers.push((String::from_str("Authorization"), concat("Bearer ", self.token.as_str())));
        headers.push((String::from_str("Accept"), String::from_str("application/json")));
        let ghost bv = opt_json_view(body);
        let bytes = match &body {
            Some(j) => {
                headers.push((String::from_str("Content-Type"), String::from_str("application/json")));
                Some(to_json_bytes(j))
            },
            None => None,
        };
        let r = Request { method, url, headers, body: bytes };
        proof {
            assert(r@.headers =~= request_spec(self@, method, path@, bv).headers);
        }
        r
    }

    /// A GET request for `path`.
    pub fn get(&self, path: &str) -> (r: Request)
        ensures
            r@ == request_spec(self@, Method::Get, path@, None),
    {
        self.send(Method::Get, path, None)
    }

    /// A POST request for `path` with a JSON body.
    pub fn post(&self, path: &str, body: Json) -> (r: Request)
        ensures
            r@ == request_spec(self@, Method::Post, path@, Some(body@)),
    {
        self.send(Method::Post, path, Some(body))
    }

    /// The request for the identity behind the token (`GET users/me`).
    pub fn me(&self) -> (r: Request)
        ensures
            r@ == request_spec(self@, Method::Get, "users/me"@, None),
    {
        self.get("users/me")
    }

    /// The request that runs a search on the scraper actor.
    pub fn search(&self, input: Json) -> (r: Request)
        ensures
            r@ == request_spec(self@, Method::Post, actor_path(self@.token), Some(input@)),
    {
        let mut path = concat(ACTOR_ENDPOINT, "?token=");
        path.append(self.token.as_str());
        self.post(path.as_str(), input)
    }

    /// The request that runs a scrape on the scraper actor.
    pub fn scrape(&self, input: Json) -> (r: Request)
        ensures
            r@ == request_spec(self@, Method::Post, actor_path(self@.token), Some(input@)),
    {
        let mut path = concat(ACTOR_ENDPOINT, "?token=");
        path.append(self.token.as_str());
        self.post(path.as_str(), input)
    }
}

} // verus!
