//! API errors and the HTTP replies they turn into.

use crate::error::{AgentErrorKind, Error};
use crate::text::join;
use std::fmt::Display;
use tokio::task::JoinError;
use vstd::prelude::*;
use vstd::std_specs::convert::FromSpecImpl;

verus! {

/// API error type with HTTP status code mapping.
#[derive(Debug)]
pub enum ApiError {
    /// Resource not found (404).
    NotFound(String),
    /// Conflict - resource already exists or invalid state (409).
    Conflict(String),
    /// Bad request - invalid input (400).
    BadRequest(String),
    /// Request timeout (408).
    Timeout,
    /// Authentication required or token invalid (401).
    Unauthorized(String),
    /// Internal server error (500).
    Internal(String),
}

/// An [`ApiError`] with its message as a sequence of characters.
pub enum ApiErrorView {
    NotFound(Seq<char>),
    Conflict(Seq<char>),
    BadRequest(Seq<char>),
    Timeout,
    Unauthorized(Seq<char>),
    Internal(Seq<char>),
}

impl View for ApiError {
    type V = ApiErrorView;

    open spec fn view(&self) -> ApiErrorView {
        match self {
            ApiError::NotFound(msg) => ApiErrorView::NotFound(msg@),
            ApiError::Conflict(msg) => ApiErrorView::Conflict(msg@),
            ApiError::BadRequest(msg) => ApiErrorView::BadRequest(msg@),
            ApiError::Timeout => ApiErrorView::Timeout,
            ApiError::Unauthorized(msg) => ApiErrorView::Unauthorized(msg@),
            ApiError::Internal(msg) => ApiErrorView::Internal(msg@),
        }
    }
}

/// JSON error response body.
pub struct ErrorResponse {
    /// What went wrong, for people.
    pub error: String,
    /// What went wrong, for programs.
    pub code: &'static str,
}

/// An HTTP reply that reports an error.
pub struct ErrorReply {
    /// The HTTP status code.
    pub status: u16,
    /// The value of the `WWW-Authenticate` header, where the reply has one.
    pub www_authenticate: Option<&'static str>,
    /// The body, sent as JSON.
    pub body: ErrorResponse,
}

impl ApiErrorView {
    /// The HTTP status code that reports this error.
    pub open spec fn status(self) -> u16 {
        match self {
            ApiErrorView::NotFound(_) => 404,
            ApiErrorView::Conflict(_) => 409,
            ApiErrorView::BadRequest(_) => 400,
            ApiErrorView::Timeout => 408,
            ApiErrorView::Unauthorized(_) => 401,
            ApiErrorView::Internal(_) => 500,
        }
    }

    /// The code in the body that reports this error.
    pub open spec fn code(self) -> Seq<char> {
        match self {
            ApiErrorView::NotFound(_) => "NOT_FOUND"@,
            ApiErrorView::Conflict(_) => "CONFLICT"@,
            ApiErrorView::BadRequest(_) => "BAD_REQUEST"@,
            ApiErrorView::Timeout => "TIMEOUT"@,
            ApiErrorView::Unauthorized(_) => "UNAUTHORIZED"@,
            ApiErrorView::Internal(_) => "INTERNAL_ERROR"@,
        }
    }

    /// The message in the body that reports this error.
    pub open spec fn message(self) -> Seq<char> {
        match self {
            ApiErrorView::NotFound(msg) => msg,
            ApiErrorView::Conflict(msg) => msg,
            ApiErrorView::BadRequest(msg) => msg,
            ApiErrorView::Timeout => "request timed out"@,
            ApiErrorView::Unauthorized(msg) => msg,
            ApiErrorView::Internal(msg) => msg,
        }
    }

    /// The challenge that the reply carries, if it carries one.
    pub open spec fn challenge(self) -> Option<Seq<char>> {
        match self {
            ApiErrorView::Unauthorized(_) => Some("Bearer error=\"invalid_token\""@),
            _ => None,
        }
    }
}

impl ErrorReply {
    /// Whether this reply reports `err`.
    pub open spec fn reports(self, err: ApiErrorView) -> bool {
        &&& self.status == err.status()
        &&& self.body.code@ == err.code()
        &&& self.body.error@ == err.message()
        &&& match self.www_authenticate {
            Some(value) => err.challenge() == Some(value@),
            None => err.challenge() is None,
        }
    }
}

impl ApiError {
    /// Whether `outcome` is a refusal and this error reports it: an
    /// `Unauthorized` with the refusal's message.
    pub open spec fn refuses<T>(self, outcome: Result<T, Seq<char>>) -> bool {
        outcome matches Err(message) && self@ == ApiErrorView::Unauthorized(message)
    }

    /// Convert any displayable error to an internal API error.
    pub fn internal(err: impl Display) -> (made: Self)
        ensures
            made matches ApiError::Internal(msg)
                && vstd::string::to_string_from_display_ensures(&err, msg),
    {
        ApiError::Internal(err.to_string())
    }

    /// Wrap a database-layer error with a consistent message prefix.
    pub fn database(err: impl Display) -> (made: Self)
        ensures
            exists|text: String| #[trigger]
                vstd::string::to_string_from_display_ensures(&err, text) && made@
                    == ApiErrorView::Internal("database error: "@ + text@),
    {
        let text: String = err.to_string();
        ApiError::database_failure(text.as_str())
    }

    /// The internal error for a database-layer failure described by `text`.
    pub fn database_failure(text: &str) -> (made: Self)
        ensures
            made@ == ApiErrorView::Internal("database error: "@ + text@),
    {
        ApiError::Internal(join("database error: ", text))
    }

    /// The internal error for a background task that failed as `text` says.
    pub fn task_failure(text: &str) -> (made: Self)
        ensures
            made@ == ApiErrorView::Internal("task failed: "@ + text@),
    {
        ApiError::Internal(join("task failed: ", text))
    }

    /// The HTTP reply that reports this error.
    pub fn into_response(self) -> (reply: ErrorReply)
        ensures
            reply.reports(self@),
    {
        let mut www_authenticate: Option<&'static str> = None;
        let (status, code, message): (u16, &'static str, String) = match self {
            ApiError::NotFound(msg) => (404, "NOT_FOUND", msg),
            ApiError::Conflict(msg) => (409, "CONFLICT", msg),
            ApiError::BadRequest(msg) => (400, "BAD_REQUEST", msg),
            ApiError::Timeout => (408, "TIMEOUT", "request timed out".to_owned()),
            ApiError::Unauthorized(msg) => {
                www_authenticate = Some("Bearer error=\"invalid_token\"");
                (401, "UNAUTHORIZED", msg)
            },
            ApiError::Internal(msg) => (500, "INTERNAL_ERROR", msg),
        };
        ErrorReply { status, www_authenticate, body: ErrorResponse { error: message, code } }
    }
}

/// Whether `result` answers a request as `outcome` says: with its value, or
/// with an error that reports its refusal.
pub open spec fn answers<T: View>(
    result: Result<T, ApiError>,
    outcome: Result<T::V, Seq<char>>,
) -> bool {
    match result {
        Ok(value) => outcome == Ok::<T::V, Seq<char>>(value@),
        Err(err) => err.refuses(outcome),
    }
}

/// The API error for a failure of the machine layer.
pub open spec fn api_error_of(err: Error) -> ApiErrorView {
    match err {
        Error::VmNotFound { name } => ApiErrorView::NotFound("machine not found: "@ + name@),
        Error::InvalidState { expected, actual } => ApiErrorView::Conflict(
            "invalid state: expected "@ + expected@ + ", got "@ + actual@,
        ),
        Error::Agent { operation, reason, kind } => match kind {
            AgentErrorKind::NotFound => ApiErrorView::NotFound(reason@),
            AgentErrorKind::Conflict => ApiErrorView::Conflict(reason@),
            AgentErrorKind::Other => ApiErrorView::Internal(reason@),
        },
        Error::Mount { message } => ApiErrorView::Internal(message@),
        Error::InvalidMountPath { message } => ApiErrorView::Internal(message@),
        Error::MountSourceNotFound { message } => ApiErrorView::Internal(message@),
        Error::Other { message } => ApiErrorView::Internal(message@),
    }
}

impl From<Error> for ApiError {
    fn from(err: Error) -> (made: ApiError)
        ensures
            made@ == api_error_of(err),
    {
        match err {
            Error::VmNotFound { name } => ApiError::NotFound(
                join("machine not found: ", name.as_str()),
            ),
            Error::InvalidState { expected, actual } => {
                let mut msg: String = join("invalid state: expected ", expected.as_str());
                msg.append(", got ");
                msg.append(actual.as_str());
                ApiError::Conflict(msg)
            },
            Error::Agent { operation: _, reason, kind } => match kind {
                AgentErrorKind::NotFound => ApiError::NotFound(reason),
                AgentErrorKind::Conflict => ApiError::Conflict(reason),
                AgentErrorKind::Other => ApiError::Internal(reason),
            },
            Error::Mount { message } => ApiError::Internal(message),
            Error::InvalidMountPath { message } => ApiError::Internal(message),
            Error::MountSourceNotFound { message } => ApiError::Internal(message),
            Error::Other { message } => ApiError::Internal(message),
        }
    }
}

// The contract of `from` itself says what a conversion gives: a message is
// known by its characters, not as one particular `String`.
impl FromSpecImpl<Error> for ApiError {
    open spec fn obeys_from_spec() -> bool {
        false
    }

    open spec fn from_spec(err: Error) -> ApiError {
        arbitrary()
    }
}

impl From<JoinError> for ApiError {
    fn from(err: JoinError) -> (made: ApiError)
        ensures
            exists|text: String| #[trigger]
                vstd::string::to_string_from_display_ensures(&err, text) && made@
                    == ApiErrorView::Internal("task failed: "@ + text@),
    {
        let text: String = err.to_string();
        ApiError::task_failure(text.as_str())
    }
}

impl FromSpecImpl<JoinError> for ApiError {
    open spec fn obeys_from_spec() -> bool {
        false
    }

    open spec fn from_spec(err: JoinError) -> ApiError {
        arbitrary()
    }
}

/// The API error for a failure to get a machine running.
pub open spec fn ensure_running_error_of(err: Error) -> ApiErrorView {
    match err {
        Error::Mount { message } => ApiErrorView::BadRequest(
            "mount validation failed: "@ + message@,
        ),
        Error::InvalidMountPath { message } => ApiErrorView::BadRequest(
            "mount validation failed: "@ + message@,
        ),
        Error::MountSourceNotFound { message } => ApiErrorView::BadRequest(
            "mount validation failed: "@ + message@,
        ),
        _ => api_error_of(err),
    }
}

/// Classify errors from `ensure_machine_running` into proper HTTP status codes.
///
/// Mount validation errors are 400 (Bad Request), everything else uses the
/// standard `Error -> ApiError` mapping (500 for startup failures, etc.).
pub fn classify_ensure_running_error(err: Error) -> (made: ApiError)
    ensures
        made@ == ensure_running_error_of(err),
{
    match err {
        Error::Mount { message } => ApiError::BadRequest(
            join("mount validation failed: ", message.as_str()),
        ),
        Error::InvalidMountPath { message } => ApiError::BadRequest(
            join("mount validation failed: ", message.as_str()),
        ),
        Error::MountSourceNotFound { message } => ApiError::BadRequest(
            join("mount validation failed: ", message.as_str()),
        ),
        other => ApiError::from(other),
    }
}

/// A reply carries a challenge exactly when its status is 401, and the
/// challenge then asks for a bearer token.
pub proof fn law_unauthorized_is_challenged(err: ApiErrorView)
    ensures
        (err.status() == 401) == (err is Unauthorized),
        (err.challenge() is Some) == (err is Unauthorized),
        err.challenge() matches Some(value) ==> "Bearer"@.is_prefix_of(value),
{
    reveal_strlit("Bearer");
    reveal_strlit("Bearer error=\"invalid_token\"");
}

/// The status and the code of a reply each tell the kind of error: two errors
/// have the same status exactly when they have the same code.
pub proof fn law_status_and_code_agree(a: ApiErrorView, b: ApiErrorView)
    ensures
        (a.status() == b.status()) == (a.code() == b.code()),
{
    reveal_strlit("NOT_FOUND");
    reveal_strlit("CONFLICT");
    reveal_strlit("BAD_REQUEST");
    reveal_strlit("TIMEOUT");
    reveal_strlit("UNAUTHORIZED");
    reveal_strlit("INTERNAL_ERROR");
    assert("CONFLICT"@.len() == 8);
    assert("TIMEOUT"@.len() == 7);
    assert("NOT_FOUND"@.len() == 9);
    assert("BAD_REQUEST"@.len() == 11);
    assert("UNAUTHORIZED"@.len() == 12);
    assert("INTERNAL_ERROR"@.len() == 14);
}

/// A failure to get a machine running is a bad request (400) exactly when a
/// mount was at fault; any other failure is reported as it would be elsewhere.
pub proof fn law_only_mount_failures_are_bad_requests(err: Error)
    ensures
        (ensure_running_error_of(err).status() == 400) == (err is Mount || err is InvalidMountPath
            || err is MountSourceNotFound),
        ensure_running_error_of(err).status() != 400 ==> ensure_running_error_of(err)
            == api_error_of(err),
{
}

/// A reply that reports an error has the status and the code of its kind and
/// carries its message; only an `Unauthorized` is challenged.
pub proof fn law_reply_tells_the_error(reply: ErrorReply, err: ApiError)
    requires
        reply.reports(err@),
    ensures
        err matches ApiError::NotFound(msg) ==> reply.status == 404 && reply.body.code@
            == "NOT_FOUND"@ && reply.body.error@ == msg@,
        err matches ApiError::Conflict(msg) ==> reply.status == 409 && reply.body.code@
            == "CONFLICT"@ && reply.body.error@ == msg@,
        err matches ApiError::BadRequest(msg) ==> reply.status == 400 && reply.body.code@
            == "BAD_REQUEST"@ && reply.body.error@ == msg@,
        err is Timeout ==> reply.status == 408 && reply.body.code@ == "TIMEOUT"@
            && reply.body.error@ == "request timed out"@,
        err matches ApiError::Unauthorized(msg) ==> reply.status == 401 && reply.body.code@
            == "UNAUTHORIZED"@ && reply.body.error@ == msg@,
        err matches ApiError::Internal(msg) ==> reply.status == 500 && reply.body.code@
            == "INTERNAL_ERROR"@ && reply.body.error@ == msg@,
        err is Unauthorized ==> (reply.www_authenticate matches Some(value) && value@
            == "Bearer error=\"invalid_token\""@),
        !(err is Unauthorized) ==> reply.www_authenticate is None,
{
}

/// The status alone tells the kind of an error.
pub proof fn law_status_tells_the_kind(err: ApiErrorView)
    ensures
        err.status() == 404 <==> err is NotFound,
        err.status() == 409 <==> err is Conflict,
        err.status() == 400 <==> err is BadRequest,
        err.status() == 408 <==> err is Timeout,
        err.status() == 401 <==> err is Unauthorized,
        err.status() == 500 <==> err is Internal,
{
}

/// Knowing an error by its characters keeps its kind and its message.
pub proof fn law_errors_keep_kind_and_message(err: ApiError, msg: Seq<char>)
    ensures
        err@ == ApiErrorView::NotFound(msg) <==> (err matches ApiError::NotFound(text) && text@
            == msg),
        err@ == ApiErrorView::Conflict(msg) <==> (err matches ApiError::Conflict(text) && text@
            == msg),
        err@ == ApiErrorView::BadRequest(msg) <==> (err matches ApiError::BadRequest(text) && text@
            == msg),
        err@ == ApiErrorView::Timeout <==> err is Timeout,
        err@ == ApiErrorView::Unauthorized(msg) <==> (err matches ApiError::Unauthorized(text)
            && text@ == msg),
        err@ == ApiErrorView::Internal(msg) <==> (err matches ApiError::Internal(text) && text@
            == msg),
{
}

/// An answer gives the value of the outcome it answers to, and where the outcome
/// is a refusal, an `Unauthorized` with the very message of the refusal.
pub proof fn law_answers_carry_the_outcome<T: View>(
    result: Result<T, ApiError>,
    outcome: Result<T::V, Seq<char>>,
)
    requires
        answers(result, outcome),
    ensures
        (result is Ok) == (outcome is Ok),
        result matches Ok(value) ==> outcome == Ok::<T::V, Seq<char>>(value@),
        result matches Err(err) ==> (outcome matches Err(message) && (err matches
            ApiError::Unauthorized(text) && text@ == message)),
{
}

/// An error refuses an outcome exactly when the outcome is a refusal and the
/// error is an `Unauthorized` with its message.
pub proof fn law_only_refusals_are_refused<T>(err: ApiError, outcome: Result<T, Seq<char>>)
    ensures
        err.refuses(outcome) <==> (outcome matches Err(message) && (err matches
            ApiError::Unauthorized(text) && text@ == message)),
{
}

/// A missing machine is reported as not found, under its name, and a machine in
/// the wrong state as a conflict, with both states. A failure that is shown
/// whole is reported as internal, word for word.
pub proof fn law_machine_failures_are_reported(err: Error)
    ensures
        err matches Error::VmNotFound { name } ==> api_error_of(err) == ApiErrorView::NotFound(
            "machine not found: "@ + name@,
        ),
        err matches Error::InvalidState { expected, actual } ==> api_error_of(err)
            == ApiErrorView::Conflict(
            "invalid state: expected "@ + expected@ + ", got "@ + actual@,
        ),
        err matches Error::Mount { message } ==> api_error_of(err) == ApiErrorView::Internal(
            message@,
        ),
        err matches Error::InvalidMountPath { message } ==> api_error_of(err)
            == ApiErrorView::Internal(message@),
        err matches Error::MountSourceNotFound { message } ==> api_error_of(err)
            == ApiErrorView::Internal(message@),
        err matches Error::Other { message } ==> api_error_of(err) == ApiErrorView::Internal(
            message@,
        ),
{
}

/// An agent failure is reported by its reason, word for word, with the status
/// of its kind; the operation that failed plays no part.
pub proof fn law_agent_failures_are_reported_by_kind(
    err: Error,
    operation: Seq<char>,
    reason: Seq<char>,
    kind: AgentErrorKind,
)
    requires
        err.is_agent(operation, reason, kind),
    ensures
        kind is NotFound ==> api_error_of(err) == ApiErrorView::NotFound(reason),
        kind is Conflict ==> api_error_of(err) == ApiErrorView::Conflict(reason),
        kind is Other ==> api_error_of(err) == ApiErrorView::Internal(reason),
        err is Agent,
        ensure_running_error_of(err) == api_error_of(err),
{
}

/// A failure of a mount to get a machine running is a bad request that tells the
/// failure word for word; any other failure is reported as it would be elsewhere.
pub proof fn law_mount_failures_are_told(err: Error)
    ensures
        err matches Error::Mount { message } ==> ensure_running_error_of(err)
            == ApiErrorView::BadRequest("mount validation failed: "@ + message@),
        err matches Error::InvalidMountPath { message } ==> ensure_running_error_of(err)
            == ApiErrorView::BadRequest("mount validation failed: "@ + message@),
        err matches Error::MountSourceNotFound { message } ==> ensure_running_error_of(err)
            == ApiErrorView::BadRequest("mount validation failed: "@ + message@),
        !(err is Mount || err is InvalidMountPath || err is MountSourceNotFound)
            ==> ensure_running_error_of(err) == api_error_of(err),
{
}

} // verus!
