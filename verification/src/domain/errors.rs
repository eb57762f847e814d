//! Error type of the library and its user-facing messages.
use vstd::prelude::*;

use crate::text::{join2, owned};

verus! {

/// Kind of an input/output failure, as far as the retry policy needs it.
#[derive(Debug, Clone, Copy, PartialEq, Eq, Structural)]
pub enum IoErrorKind {
    TimedOut,
    ConnectionReset,
    ConnectionAborted,
    WouldBlock,
    Interrupted,
    NotFound,
    PermissionDenied,
    Other,
}

/// What is known of a failed HTTP request.
#[derive(Debug, Clone)]
pub struct RequestFailure {
    /// Rendered error text.
    pub message: String,
    /// The request timed out.
    pub is_timeout: bool,
    /// The connection could not be established.
    pub is_connect: bool,
    /// HTTP status of the response that caused the failure, if any.
    pub status: Option<u16>,
}

/// Errors of the library, with the data their messages show.
#[derive(Debug, Clone)]
pub enum AppError {
    InvalidInput(String),
    MissingDestination,
    MissingToken,
    NoSources,
    MissingAnalysis,
    TransferNotRunning,
    Cancelled,
    InvalidStateTransition(String),
    Network(String),
    /// Failure kind and rendered message of an I/O error.
    Io(IoErrorKind, String),
    Db(String),
    Serde(String),
    Reqwest(RequestFailure),
    Keyring(String),
    Internal(String),
}

pub type AppResult<T> = Result<T, AppError>;

/// The text shown for an error.
pub open spec fn error_message(e: AppError) -> Seq<char> {
    match e {
        AppError::InvalidInput(m) => "invalid input: "@ + m@,
        AppError::MissingDestination => "destination not configured"@,
        AppError::MissingToken => "token missing for destination"@,
        AppError::NoSources => "nothing to scan: no sources configured"@,
        AppError::MissingAnalysis => "analysis not ready"@,
        AppError::TransferNotRunning => "transfer not running"@,
        AppError::Cancelled => "operation cancelled by user"@,
        AppError::InvalidStateTransition(m) => "invalid state transition: "@ + m@,
        AppError::Network(m) => "network error: "@ + m@,
        AppError::Io(_, m) => "io error: "@ + m@,
        AppError::Db(m) => "database error: "@ + m@,
        AppError::Serde(m) => "serialization error: "@ + m@,
        AppError::Reqwest(f) => "request error: "@ + f.message@,
        AppError::Keyring(m) => "keychain error: "@ + m@,
        AppError::Internal(m) => "internal error: "@ + m@,
    }
}

impl AppError {
    /// The text shown for this error.
    pub fn message(&self) -> (r: String)
        ensures
            r@ == error_message(*self),
    {
        match self {
            AppError::InvalidInput(m) => join2("invalid input: ", m.as_str()),
            AppError::MissingDestination => owned("destination not configured"),
            AppError::MissingToken => owned("token missing for destination"),
            AppError::NoSources => owned("nothing to scan: no sources configured"),
            AppError::MissingAnalysis => owned("analysis not ready"),
            AppError::TransferNotRunning => owned("transfer not running"),
            AppError::Cancelled => owned("operation cancelled by user"),
            AppError::InvalidStateTransition(m) => join2(
                "invalid state transition: ",
                m.as_str(),
            ),
            AppError::Network(m) => join2("network error: ", m.as_str()),
            AppError::Io(_, m) => join2("io error: ", m.as_str()),
            AppError::Db(m) => join2("database error: ", m.as_str()),
            AppError::Serde(m) => join2("serialization error: ", m.as_str()),
            AppError::Reqwest(f) => join2("request error: ", f.message.as_str()),
            AppError::Keyring(m) => join2("keychain error: ", m.as_str()),
            AppError::Internal(m) => join2("internal error: ", m.as_str()),
        }
    }
}

/// An invalid-input error with the given message.
pub fn bad_request(message: &str) -> (r: AppError)
    ensures
        r matches AppError::InvalidInput(m) && m@ == message@,
{
    AppError::InvalidInput(owned(message))
}

/// An internal error with the given message.
pub fn internal(message: &str) -> (r: AppError)
    ensures
        r matches AppError::Internal(m) && m@ == message@,
{
    AppError::Internal(owned(message))
}

/// An internal error carrying the rendered text of another error.
pub fn wrap_internal(rendered: &str) -> (r: AppError)
    ensures
        r matches AppError::Internal(m) && m@ == rendered@,
{
    AppError::Internal(owned(rendered))
}

} // verus!
