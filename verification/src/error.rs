//! The library's errors, their messages and their classes.

use vstd::prelude::*;

use crate::text;

verus! {

/// `serde_json`'s error type, carried through unread.
#[verifier::external_type_specification]
#[verifier::external_body]
pub struct ExJsonError(serde_json::Error);

/// `reqwest`'s error type, carried through unread.
#[verifier::external_type_specification]
#[verifier::external_body]
pub struct ExHttpError(reqwest::Error);

/// Everything that can go wrong while answering a request.
#[derive(Debug)]
pub enum AppError {
    Config(String),
    NotFound(String),
    CoverageNotReady { state: String },
    NoCoverageData(String),
    Api { status: u16, message: String },
    Unauthorized,
    Forbidden,
    RateLimited,
    Serialization(serde_json::Error),
    Http(reqwest::Error),
}

/// The two classes of MCP error that an `AppError` is reported as.
#[derive(Debug, Clone, Copy, PartialEq, Eq)]
pub enum ErrorClass {
    /// The request named something that does not exist or cannot work.
    InvalidParams,
    /// The server, or the Codecov API behind it, failed.
    InternalError,
}

/// Configuration errors and missing resources are the caller's invalid
/// parameters; every other error is internal.
pub open spec fn class_of(e: AppError) -> ErrorClass {
    match e {
        AppError::Config(_) | AppError::NotFound(_) => ErrorClass::InvalidParams,
        _ => ErrorClass::InternalError,
    }
}

/// The message of an error whose text the library writes itself; `None`
/// for the errors that wrap an outside error, whose message ends with that
/// error's own text.
pub open spec fn message_of(e: AppError) -> Option<Seq<char>> {
    match e {
        AppError::Config(m) => Some("Configuration error: "@ + m@),
        AppError::NotFound(m) => Some("Not found: "@ + m@),
        AppError::CoverageNotReady { state } => Some("Coverage not ready (state: "@ + state@ + ")"@),
        AppError::NoCoverageData(m) => Some("No coverage data: "@ + m@),
        AppError::Api { status, message } => Some(
            "Codecov API error ("@ + text::decimal(status as nat) + "): "@ + message@,
        ),
        AppError::Unauthorized => Some("Unauthorized: the Codecov token was rejected"@),
        AppError::Forbidden => Some("Forbidden: the Codecov token has no access to this repository"@),
        AppError::RateLimited => Some("Rate limited by the Codecov API"@),
        AppError::Serialization(_) => None,
        AppError::Http(_) => None,
    }
}

/// The text that `serde_json::Error`'s `Display` writes for `e`; nothing
/// is stated of it.
#[verifier::external_body]
fn json_error_text(e: &serde_json::Error) -> String {
    format!("{}", e)
}

/// The text that `reqwest::Error`'s `Display` writes for `e`; nothing is
/// stated of it.
#[verifier::external_body]
fn http_error_text(e: &reqwest::Error) -> String {
    format!("{}", e)
}

impl AppError {
    /// The MCP error class this error is reported as.
    pub fn class(&self) -> (r: ErrorClass)
        ensures
            r == class_of(*self),
    {
        match self {
            AppError::Config(_) => ErrorClass::InvalidParams,
            AppError::NotFound(_) => ErrorClass::InvalidParams,
            _ => ErrorClass::InternalError,
        }
    }

    /// The human-readable message of this error.
    pub fn message(&self) -> (r: String)
        ensures
            message_of(*self) matches Some(m) ==> r@ == m,
            self is Serialization ==> "Serialization error: "@.is_prefix_of(r@),
            self is Http ==> "HTTP error: "@.is_prefix_of(r@),
    {
        match self {
            AppError::Config(m) => {
                let mut r = String::from_str("Configuration error: ");
                r.append(m.as_str());
                r
            },
            AppError::NotFound(m) => {
                let mut r = String::from_str("Not found: ");
                r.append(m.as_str());
                r
            },
            AppError::CoverageNotReady { state } => {
                let mut r = String::from_str("Coverage not ready (state: ");
                r.append(state.as_str());
                r.append(")");
                r
            },
            AppError::NoCoverageData(m) => {
                let mut r = String::from_str("No coverage data: ");
                r.append(m.as_str());
                r
            },
            AppError::Api { status, message } => {
                let mut r = String::from_str("Codecov API error (");
                let code = text::decimal_string(*status as u64);
                r.append(code.as_str());
                r.append("): ");
                r.append(message.as_str());
                r
            },
            AppError::Unauthorized => String::from_str("Unauthorized: the Codecov token was rejected"),
            AppError::Forbidden => String::from_str(
                "Forbidden: the Codecov token has no access to this repository",
            ),
            AppError::RateLimited => String::from_str("Rate limited by the Codecov API"),
            AppError::Serialization(e) => {
                let mut r = String::from_str("Serialization error: ");
                let t = json_error_text(e);
                let ghost head = r@;
                r.append(t.as_str());
                assert(r@.subrange(0, head.len() as int) =~= head);
                r
            },
            AppError::Http(e) => {
                let mut r = String::from_str("HTTP error: ");
                let t = http_error_text(e);
                let ghost head = r@;
                r.append(t.as_str());
                assert(r@.subrange(0, head.len() as int) =~= head);
                r
            },
        }
    }
}

/// A status in `200..=299` reports success.
pub open spec fn is_success_status(status: u16) -> bool {
    200 <= status <= 299
}

/// The variant and text of an error that a response status produces.
pub ghost enum AppErrorShape {
    Unauthorized,
    Forbidden,
    NotFound(Seq<char>),
    RateLimited,
    Api(u16, Seq<char>),
}

/// The error for an unsuccessful response: the status classes that callers
/// act on get their own variant, and every other failure carries its status
/// and the API's explanation.
pub open spec fn status_error_spec(
    status: u16,
    not_found: Seq<char>,
    detail: Option<Seq<char>>,
    body: Seq<char>,
) -> AppErrorShape {
    if status == 401 {
        AppErrorShape::Unauthorized
    } else if status == 403 {
        AppErrorShape::Forbidden
    } else if status == 404 {
        AppErrorShape::NotFound(not_found)
    } else if status == 429 {
        AppErrorShape::RateLimited
    } else {
        AppErrorShape::Api(
            status,
            match detail {
                Some(d) => d,
                None => body,
            },
        )
    }
}

/// The variant and text of `e`, when it is one that a status produces.
pub open spec fn shape_of(e: AppError) -> Option<AppErrorShape> {
    match e {
        AppError::Unauthorized => Some(AppErrorShape::Unauthorized),
        AppError::Forbidden => Some(AppErrorShape::Forbidden),
        AppError::NotFound(m) => Some(AppErrorShape::NotFound(m@)),
        AppError::RateLimited => Some(AppErrorShape::RateLimited),
        AppError::Api { status, message } => Some(AppErrorShape::Api(status, message@)),
        _ => None,
    }
}

/// Whether a response with this status is a success.
pub fn is_success(status: u16) -> (r: bool)
    ensures
        r == is_success_status(status),
{
    200 <= status && status <= 299
}

/// The error for an unsuccessful API response.  `not_found` is the message
/// for a 404; `detail` is the `detail` field of the error body, when the
/// body is a JSON error document; `body` is the raw body.
pub fn error_for_status(
    status: u16,
    not_found: String,
    detail: Option<String>,
    body: String,
) -> (r: AppError)
    requires
        !is_success_status(status),
    ensures
        shape_of(r) == Some(
            status_error_spec(
                status,
                not_found@,
                match detail {
                    Some(d) => Some(d@),
                    None => None,
                },
                body@,
            ),
        ),
{
    if status == 401 {
        AppError::Unauthorized
    } else if status == 403 {
        AppError::Forbidden
    } else if status == 404 {
        AppError::NotFound(not_found)
    } else if status == 429 {
        AppError::RateLimited
    } else {
        let message = match detail {
            Some(d) => d,
            None => body,
        };
        AppError::Api { status, message }
    }
}


/// The message when a commit is unknown: `commit {sha} not found`.
pub fn commit_not_found(sha: &str) -> (r: String)
    ensures
        r@ == "commit "@ + sha@ + " not found"@,
{
    let mut r = String::from_str("commit ");
    r.append(sha);
    r.append(" not found");
    r
}

/// The message when a commit has no report: `report for commit {sha} not found`.
pub fn report_not_found(sha: &str) -> (r: String)
    ensures
        r@ == "report for commit "@ + sha@ + " not found"@,
{
    let mut r = String::from_str("report for commit ");
    r.append(sha);
    r.append(" not found");
    r
}

/// The message when a pull request is unknown: `pull request {pull_id} not found`.
pub fn pull_not_found(pull_id: u64) -> (r: String)
    ensures
        r@ == "pull request "@ + text::decimal(pull_id as nat) + " not found"@,
{
    let mut r = String::from_str("pull request ");
    let id = text::decimal_string(pull_id);
    r.append(id.as_str());
    r.append(" not found");
    r
}

} // verus!
