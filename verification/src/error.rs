//! The error envelope: a stable machine-readable code, a human message, an
//! optional detail and an optional remediation, with one exit code per code.

use vstd::prelude::*;
use crate::json::{Json, JsonV, members_view, object, push_member};

verus! {

/// The class of a failure; each class has its own process exit code.
#[derive(Clone, Copy, Debug, PartialEq, Eq, Structural)]
pub enum ErrorCode {
    /// Unclassified failure: report and stop.
    Error,
    /// Transport timeout, connection failure or server error: retry once.
    Network,
    /// Token invalid, revoked or missing: surface the remediation to a human.
    AuthRequired,
    /// The resource or actor was not found: do not retry.
    NotFound,
    /// The API's rate limit was reached: back off before retrying.
    RateLimited,
    /// Invalid parameters or missing required arguments.
    InvalidInput,
    /// No account specified or configured.
    NoAccount,
}

/// The exit code of each error class (0 is success and belongs to none).
pub open spec fn exit_code_spec(code: ErrorCode) -> int {
    match code {
        ErrorCode::Error => 1,
        ErrorCode::Network => 2,
        ErrorCode::AuthRequired => 3,
        ErrorCode::NotFound => 4,
        ErrorCode::RateLimited => 5,
        ErrorCode::InvalidInput => 6,
        ErrorCode::NoAccount => 7,
    }
}

/// The name under which each error class appears in the envelope's `code` field.
pub open spec fn code_name(code: ErrorCode) -> Seq<char> {
    match code {
        ErrorCode::Error => "error"@,
        ErrorCode::Network => "network"@,
        ErrorCode::AuthRequired => "auth_required"@,
        ErrorCode::NotFound => "not_found"@,
        ErrorCode::RateLimited => "rate_limited"@,
        ErrorCode::InvalidInput => "invalid_input"@,
        ErrorCode::NoAccount => "no_account"@,
    }
}

impl ErrorCode {
    /// The process exit code for this class of failure.
    pub fn exit_code(self) -> (r: i32)
        ensures
            r == exit_code_spec(self),
    {
        match self {
            ErrorCode::Error => 1,
            ErrorCode::Network => 2,
            ErrorCode::AuthRequired => 3,
            ErrorCode::NotFound => 4,
            ErrorCode::RateLimited => 5,
            ErrorCode::InvalidInput => 6,
            ErrorCode::NoAccount => 7,
        }
    }

    /// The machine-readable name of this class.
    pub fn as_str(self) -> (r: &'static str)
        ensures
            r@ == code_name(self),
    {
        match self {
            ErrorCode::Error => "error",
            ErrorCode::Network => "network",
            ErrorCode::AuthRequired => "auth_required",
            ErrorCode::NotFound => "not_found",
            ErrorCode::RateLimited => "rate_limited",
            ErrorCode::InvalidInput => "invalid_input",
            ErrorCode::NoAccount => "no_account",
        }
    }
}

/// Every error class has an exit code of its own, between 1 and 7, and a name
/// of its own: an agent can tell the classes apart by either.
pub proof fn lemma_exit_codes_distinct(a: ErrorCode, b: ErrorCode)
    ensures
        1 <= exit_code_spec(a) <= 7,
        exit_code_spec(a) == exit_code_spec(b) <==> a == b,
        code_name(a) == code_name(b) <==> a == b,
{
    reveal_strlit("error");
    reveal_strlit("network");
    reveal_strlit("auth_required");
    reveal_strlit("not_found");
    reveal_strlit("rate_limited");
    reveal_strlit("invalid_input");
    reveal_strlit("no_account");
    if code_name(a) == code_name(b) {
        let (x, y) = (code_name(a), code_name(b));
        assert(x.len() == y.len());
        if x.len() > 0 {
            assert(x[0] == y[0]);
        }
        if x.len() > 1 {
            assert(x[1] == y[1]);
        }
    }
}

/// A failure as the command reports it.
#[derive(Debug)]
pub struct Error {
    pub code: ErrorCode,
    pub message: String,
    pub detail: Option<String>,
    pub remediation: Option<String>,
}

/// The content of an [`Error`].
pub struct ErrorV {
    pub code: ErrorCode,
    pub message: Seq<char>,
    pub detail: Option<Seq<char>>,
    pub remediation: Option<Seq<char>>,
}

/// The view of an optional string.
pub open spec fn opt_view(s: Option<String>) -> Option<Seq<char>> {
    match s {
        Some(t) => Some(t@),
        None => None,
    }
}

impl View for Error {
    type V = ErrorV;

    open spec fn view(&self) -> ErrorV {
        ErrorV {
            code: self.code,
            message: self.message@,
            detail: opt_view(self.detail),
            remediation: opt_view(self.remediation),
        }
    }
}

/// An error with code and message and nothing more.
pub open spec fn new_spec(code: ErrorCode, message: Seq<char>) -> ErrorV {
    ErrorV { code, message, detail: None, remediation: None }
}

/// The envelope printed for an error: `error`, `code`, then `detail` and
/// `remediation` when present.
pub open spec fn envelope_spec(e: ErrorV) -> JsonV {
    let base = seq![("error"@, JsonV::Str(e.message)), ("code"@, JsonV::Str(code_name(e.code)))];
    let with_detail = match e.detail {
        Some(d) => base.push(("detail"@, JsonV::Str(d))),
        None => base,
    };
    let all = match e.remediation {
        Some(r) => with_detail.push(("remediation"@, JsonV::Str(r))),
        None => with_detail,
    };
    JsonV::Object(all)
}

impl Error {
    /// An error of class `code` with the given message.
    pub fn new(code: ErrorCode, message: &str) -> (r: Error)
        ensures
            r@ == new_spec(code, message@),
    {
        Error { code, message: String::from_str(message), detail: None, remediation: None }
    }

    /// The same error with its detail set.
    pub fn detail(self, detail: &str) -> (r: Error)
        ensures
            r@ == (ErrorV { detail: Some(detail@), ..self@ }),
    {
        Error { detail: Some(String::from_str(detail)), ..self }
    }

    /// The same error with its remediation set.
    pub fn fix(self, remediation: &str) -> (r: Error)
        ensures
            r@ == (ErrorV { remediation: Some(remediation@), ..self@ }),
    {
        Error { remediation: Some(String::from_str(remediation)), ..self }
    }

    /// The exit code of this error.
    pub fn exit_code(&self) -> (r: i32)
        ensures
            r == exit_code_spec(self.code),
    {
        self.code.exit_code()
    }

    /// The envelope that reports this error.
    pub fn envelope(&self) -> (r: Json)
        ensures
            r@ == envelope_spec(self@),
    {
        let mut m: Vec<(String, Json)> = Vec::new();
        proof {
            assert(members_view(m@) =~= Seq::empty());
        }
        push_member(&mut m, "error", Json::string(self.message.as_str()));
        push_member(&mut m, "code", Json::string(self.code.as_str()));
        let ghost base = members_view(m@);
        assert(base =~= seq![("error"@, JsonV::Str(self@.message)), ("code"@, JsonV::Str(code_name(self.code)))]);
        match &self.detail {
            Some(d) => push_member(&mut m, "detail", Json::string(d.as_str())),
            None => {},
        }
        let ghost with_detail = members_view(m@);
        match &self.remediation {
            Some(f) => push_member(&mut m, "remediation", Json::string(f.as_str())),
            None => {},
        }
        let r = object(m);
        r
    }
}

} // verus!
