//! The errors of the library.

use crate::api::response::ApiError;
use crate::executor::Failure;
use crate::text::{decimal_digits, decimal_of, string_of};
use vstd::prelude::*;
use vstd::string::StringExecFns;

verus! {

/// What the API says about a request that it did not carry out.
#[derive(Debug, PartialEq)]
pub enum RedditFailure {
    /// The errors listed in the answer to a post, all of them and in order.
    Errors(Vec<ApiError>),
    /// The body of a response with status 400.
    Body(String),
}

/// What went wrong.
#[derive(Debug, PartialEq)]
pub enum RouxErrorKind {
    /// The API answered with a status that is no success.
    Status(u16),
    /// The transport failed and no response came.
    Network(String),
    /// A response came, with this status, and counts as a failure.
    FullNetwork(u16, String),
    /// The request ran into the ratelimit; the seconds to wait, where the
    /// response gave them.
    Ratelimited { retry_after: Option<u64> },
    /// The API reports errors, or refused the request.
    RedditError(RedditFailure),
    /// The response could not be decoded.
    Parse(String),
    /// The token endpoint refused the credentials.
    Auth(String),
    /// A user name and a password are needed and not set, or a new login
    /// did not help.
    CredentialsNotSet,
    /// The operation needs an authenticated client.
    OAuthClientRequired,
}

/// `std::backtrace::Backtrace`, carried through without looking inside.
#[verifier::external_type_specification]
#[verifier::external_body]
pub struct ExBacktrace(std::backtrace::Backtrace);

/// `std::backtrace::Backtrace::capture`: the backtrace of the place of the
/// call, where the process is set to capture one. Nothing is known of it.
#[verifier::external_body]
fn capture_backtrace() -> std::backtrace::Backtrace {
    std::backtrace::Backtrace::capture()
}

/// An error of the library, with a backtrace of where it was made.
#[derive(Debug)]
pub struct RouxError {
    /// What went wrong.
    pub kind: RouxErrorKind,
    /// Where the error was made.
    pub backtrace: Box<std::backtrace::Backtrace>,
}

/// Why a call of the executor, or a login, failed.
#[derive(Debug, PartialEq)]
pub enum ExecuteError {
    /// The server wants authorization.
    AuthorizationRequired,
    /// The token endpoint refused the credentials, with this reason.
    AuthError(String),
    /// The transport failed, or the response could not be read.
    ErrorOnly(String),
    /// A response came, with this status, and counts as a failure.
    ResponseAndError(u16, String),
    /// The server refused the request, with this body.
    BadRequest(String),
}

impl RouxError {
    /// An error of this kind.
    pub fn new(kind: RouxErrorKind) -> (r: Self)
        ensures
            r.kind == kind,
    {
        RouxError { kind, backtrace: Box::new(capture_backtrace()) }
    }

    /// The credentials are not set.
    pub fn credentials_not_set() -> (r: Self)
        ensures
            r.kind == RouxErrorKind::CredentialsNotSet,
    {
        Self::new(RouxErrorKind::CredentialsNotSet)
    }

    /// The API reports these errors.
    pub fn reddit_errors(errors: Vec<ApiError>) -> (r: Self)
        ensures
            r.kind == RouxErrorKind::RedditError(RedditFailure::Errors(errors)),
    {
        Self::new(RouxErrorKind::RedditError(RedditFailure::Errors(errors)))
    }

    /// The error that stands for a failure of the executor:
    /// a missing authorization shows as credentials not set, a refusal of
    /// the credentials as an authorization error, a transport failure as a
    /// network error, a failed response as a network error with its
    /// status, and a refused request as an error of the API with its body.
    pub fn from_execute(error: ExecuteError) -> (r: Self)
        ensures
            r.kind == Self::kind_of(error),
    {
        match error {
            ExecuteError::AuthorizationRequired => Self::new(RouxErrorKind::CredentialsNotSet),
            ExecuteError::AuthError(reason) => Self::new(RouxErrorKind::Auth(reason)),
            ExecuteError::ErrorOnly(message) => Self::new(RouxErrorKind::Network(message)),
            ExecuteError::ResponseAndError(status, message) => Self::new(
                RouxErrorKind::FullNetwork(status, message),
            ),
            ExecuteError::BadRequest(body) => Self::new(
                RouxErrorKind::RedditError(RedditFailure::Body(body)),
            ),
        }
    }

    /// The kind of error that stands for a failure of the executor.
    pub open spec fn kind_of(error: ExecuteError) -> RouxErrorKind {
        match error {
            ExecuteError::AuthorizationRequired => RouxErrorKind::CredentialsNotSet,
            ExecuteError::AuthError(reason) => RouxErrorKind::Auth(reason),
            ExecuteError::ErrorOnly(message) => RouxErrorKind::Network(message),
            ExecuteError::ResponseAndError(status, message) => RouxErrorKind::FullNetwork(
                status,
                message,
            ),
            ExecuteError::BadRequest(body) => RouxErrorKind::RedditError(
                RedditFailure::Body(body),
            ),
        }
    }
}

impl RouxError {
    /// What went wrong, in words.
    pub fn message(&self) -> (r: String)
        ensures
            r@ == self.message_spec(),
    {
        match &self.kind {
            RouxErrorKind::Status(status) => {
                let mut text = String::from_str("Status error: ");
                text.append(string_of(&decimal_of(*status as u64)).as_str());
                text
            },
            RouxErrorKind::Network(message) => message.clone(),
            RouxErrorKind::FullNetwork(_, message) => message.clone(),
            RouxErrorKind::Ratelimited { retry_after } => match retry_after {
                Some(seconds) => {
                    let mut text = String::from_str("Ratelimited until Some(");
                    text.append(string_of(&decimal_of(*seconds)).as_str());
                    text.append("s)");
                    text
                },
                None => String::from_str("Ratelimited until None"),
            },
            RouxErrorKind::RedditError(RedditFailure::Errors(_)) => String::from_str("API error"),
            RouxErrorKind::RedditError(RedditFailure::Body(body)) => {
                let mut text = String::from_str("API error: ");
                text.append(body.as_str());
                text
            },
            RouxErrorKind::Parse(message) => message.clone(),
            RouxErrorKind::Auth(reason) => {
                let mut text = String::from_str("Auth error: ");
                text.append(reason.as_str());
                text
            },
            RouxErrorKind::CredentialsNotSet => String::from_str(
                "Must set username and password before calling create_client",
            ),
            RouxErrorKind::OAuthClientRequired => String::from_str(
                "Endpoint requires authentication with OAuth",
            ),
        }
    }

    /// The words for an error.
    pub open spec fn message_spec(&self) -> Seq<char> {
        match self.kind {
            RouxErrorKind::Status(status) => "Status error: "@ + decimal_digits(status as nat),
            RouxErrorKind::Network(message) => message@,
            RouxErrorKind::FullNetwork(_, message) => message@,
            RouxErrorKind::Ratelimited { retry_after } => match retry_after {
                Some(seconds) => "Ratelimited until Some("@ + decimal_digits(seconds as nat)
                    + "s)"@,
                None => "Ratelimited until None"@,
            },
            RouxErrorKind::RedditError(RedditFailure::Errors(_)) => "API error"@,
            RouxErrorKind::RedditError(RedditFailure::Body(body)) => "API error: "@ + body@,
            RouxErrorKind::Parse(message) => message@,
            RouxErrorKind::Auth(reason) => "Auth error: "@ + reason@,
            RouxErrorKind::CredentialsNotSet => "Must set username and password before calling create_client"@,
            RouxErrorKind::OAuthClientRequired => "Endpoint requires authentication with OAuth"@,
        }
    }
}

impl ExecuteError {
    /// The error for a failure of the executor, with the status of the last
    /// response, where one came, and the text of the transport error or of
    /// the body.
    pub fn from_failure(failure: Failure, status: u16, detail: String) -> (r: Self)
        ensures
            r == Self::of_failure(failure, status, detail),
    {
        match failure {
            Failure::Unauthorized => ExecuteError::AuthorizationRequired,
            Failure::BadRequest => ExecuteError::BadRequest(detail),
            Failure::Status => ExecuteError::ResponseAndError(status, detail),
            Failure::Network => ExecuteError::ErrorOnly(detail),
            Failure::RetriesExhausted => ExecuteError::ErrorOnly(detail),
        }
    }

    /// The error for a failure of the executor.
    pub open spec fn of_failure(failure: Failure, status: u16, detail: String) -> ExecuteError {
        match failure {
            Failure::Unauthorized => ExecuteError::AuthorizationRequired,
            Failure::BadRequest => ExecuteError::BadRequest(detail),
            Failure::Status => ExecuteError::ResponseAndError(status, detail),
            Failure::Network => ExecuteError::ErrorOnly(detail),
            Failure::RetriesExhausted => ExecuteError::ErrorOnly(detail),
        }
    }
}

} // verus!
