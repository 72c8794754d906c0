//! The structured error of the tool: a stable code, a message, and optional
//! detail and remediation, as the error envelope reports them.

use vstd::prelude::*;

verus! {

/// The classification of a failure; each has a stable name and exit status.
#[derive(Clone, Copy, Debug, PartialEq, Eq, Structural)]
pub enum ErrorCode {
    Error,
    Network,
    AuthRequired,
    NotFound,
    RateLimited,
    InvalidInput,
    NoAccount,
}

/// The process exit status that reports `code`.
pub open spec fn exit_status(code: ErrorCode) -> u8 {
    match code {
        ErrorCode::Error => 1,
        ErrorCode::Network => 2,
        ErrorCode::AuthRequired => 3,
        ErrorCode::NotFound => 4,
        ErrorCode::RateLimited => 5,
        ErrorCode::InvalidInput => 6,
        ErrorCode::NoAccount => 7,
    }
}

/// The name under which `code` appears in the error envelope.
pub open spec fn code_name(code: ErrorCode) -> Seq<char> {
    match code {
        ErrorCode::Error => "error"@,
        ErrorCode::Network => "network"@,
        ErrorCode::AuthRequired => "auth_required"@,
        ErrorCode::NotFound => "not_found"@,
        ErrorCode::RateLimited => "rate_limited"@,
        ErrorCode::InvalidInput => "invalid_input"@,
        ErrorCode::NoAccount => "no_account"@,
    }
}

/// What an agent should do on `code`, as the operating manual says it.
pub open spec fn code_guidance(code: ErrorCode) -> Seq<char> {
    match code {
        ErrorCode::Error => "unclassified, report and stop"@,
        ErrorCode::Network => "retry once, then stop"@,
        ErrorCode::AuthRequired => "stop, surface the remediation to a human"@,
        ErrorCode::NotFound => "do not retry"@,
        ErrorCode::RateLimited => "back off before retrying"@,
        ErrorCode::InvalidInput => "fix the call"@,
        ErrorCode::NoAccount => "run reddit accounts list"@,
    }
}

impl ErrorCode {
    /// The process exit status for this code.
    pub fn exit_code(&self) -> (r: u8)
        ensures
            r == exit_status(*self),
    {
        match self {
            ErrorCode::Error => 1,
            ErrorCode::Network => 2,
            ErrorCode::AuthRequired => 3,
            ErrorCode::NotFound => 4,
            ErrorCode::RateLimited => 5,
            ErrorCode::InvalidInput => 6,
            ErrorCode::NoAccount => 7,
        }
    }

    /// The stable name of this code.
    pub fn name(&self) -> (r: &'static str)
        ensures
            r@ == code_name(*self),
    {
        match self {
            ErrorCode::Error => "error",
            ErrorCode::Network => "network",
            ErrorCode::AuthRequired => "auth_required",
            ErrorCode::NotFound => "not_found",
            ErrorCode::RateLimited => "rate_limited",
            ErrorCode::InvalidInput => "invalid_input",
            ErrorCode::NoAccount => "no_account",
        }
    }

    /// What an agent should do on this code.
    pub fn guidance(&self) -> (r: &'static str)
        ensures
            r@ == code_guidance(*self),
    {
        match self {
            ErrorCode::Error => "unclassified, report and stop",
            ErrorCode::Network => "retry once, then stop",
            ErrorCode::AuthRequired => "stop, surface the remediation to a human",
            ErrorCode::NotFound => "do not retry",
            ErrorCode::RateLimited => "back off before retrying",
            ErrorCode::InvalidInput => "fix the call",
            ErrorCode::NoAccount => "run reddit accounts list",
        }
    }
}

/// A failure of the tool, as the error envelope reports it.
#[derive(Clone, Debug)]
pub struct Error {
    pub code: ErrorCode,
    pub message: String,
    pub detail: Option<String>,
    pub remediation: Option<String>,
}

/// The mathematical content of an [`Error`].
pub struct ErrorView {
    pub code: ErrorCode,
    pub message: Seq<char>,
    pub detail: Option<Seq<char>>,
    pub remediation: Option<Seq<char>>,
}

impl View for Error {
    type V = ErrorView;

    open spec fn view(&self) -> ErrorView {
        ErrorView {
            code: self.code,
            message: self.message@,
            detail: self.detail.deep_view(),
            remediation: self.remediation.deep_view(),
        }
    }
}

/// An error with the given code and message and nothing more.
pub open spec fn plain_error(code: ErrorCode, message: Seq<char>) -> ErrorView {
    ErrorView { code, message, detail: None, remediation: None }
}

impl ErrorView {
    /// This error with `detail` attached.
    pub open spec fn with_detail(self, detail: Seq<char>) -> ErrorView {
        ErrorView { detail: Some(detail), ..self }
    }

    /// This error with the remediation `fix` attached.
    pub open spec fn with_fix(self, fix: Seq<char>) -> ErrorView {
        ErrorView { remediation: Some(fix), ..self }
    }
}

impl Error {
    /// An error with the given code and message.
    pub fn new(code: ErrorCode, message: &str) -> (e: Error)
        ensures
            e@ == plain_error(code, message@),
    {
        Error { code, message: String::from_str(message), detail: None, remediation: None }
    }

    /// An `invalid_input` error with the given message.
    pub fn invalid(message: &str) -> (e: Error)
        ensures
            e@ == plain_error(ErrorCode::InvalidInput, message@),
    {
        Error::new(ErrorCode::InvalidInput, message)
    }

    /// This error with `detail` attached, replacing any earlier one.
    pub fn detail(self, detail: &str) -> (e: Error)
        ensures
            e@ == self@.with_detail(detail@),
    {
        Error { detail: Some(String::from_str(detail)), ..self }
    }

    /// This error with the remediation `fix` attached, replacing any earlier one.
    pub fn fix(self, fix: &str) -> (e: Error)
        ensures
            e@ == self@.with_fix(fix@),
    {
        Error { remediation: Some(String::from_str(fix)), ..self }
    }

    /// The process exit status that reports this error.
    pub fn exit_code(&self) -> (r: u8)
        ensures
            r == exit_status(self.code),
    {
        self.code.exit_code()
    }
}

} // verus!
