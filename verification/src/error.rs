//! The errors of the application and how each reads to the user.
use std::time::Duration;
use vstd::prelude::*;
use vstd::string::StringExecFns;

verus! {

/// A failure that the Honcho service or its client reported, kept as the
/// values the application reads from it.
#[derive(Debug, Clone, PartialEq, Eq)]
pub struct HonchoFailure {
    /// The human-readable message of the failure.
    pub message: String,
    /// The stable code of the failure (such as `not_found`).
    pub code: &'static str,
    /// Whether the client's retry policy retries such a failure.
    pub retryable: bool,
    /// How long the service asked to wait before retrying.
    pub retry_after: Option<Duration>,
    /// The full description of the failure.
    pub detail: String,
}

/// The errors of the application.
#[derive(Debug)]
pub enum AppError {
    /// The Honcho service or its client failed.
    Honcho(HonchoFailure),
    /// The system keychain failed; the text describes how.
    Keyring(String),
    /// Reading or writing a file failed; the text describes how.
    Io(String),
    /// Reading or writing JSON failed; the text describes how.
    Json(String),
    /// A command needs a connection and there is none.
    NotConnected,
    /// The reply of a request was dropped during the named operation.
    ChannelClosed { operation: &'static str },
    /// An input was refused; the text says why.
    Validation(String),
}

/// A result whose error is an `AppError`.
pub type AppResult<T> = Result<T, AppError>;

/// The message shown to the user for an error.
pub open spec fn user_message_of(e: AppError) -> Seq<char> {
    match e {
        AppError::Honcho(f) => f.message@,
        AppError::NotConnected => "Not connected to Honcho"@,
        AppError::ChannelClosed { .. } => "Request was canceled"@,
        AppError::Validation(msg) => msg@,
        AppError::Keyring(d) => "Keychain error: "@ + d@,
        AppError::Io(d) => "I/O error: "@ + d@,
        AppError::Json(d) => "JSON error: "@ + d@,
    }
}

/// The stable code of an error.
pub open spec fn code_of(e: AppError) -> Seq<char> {
    match e {
        AppError::Honcho(f) => f.code@,
        AppError::Keyring(_) => "keyring_error"@,
        AppError::Io(_) => "io_error"@,
        AppError::Json(_) => "json_error"@,
        AppError::NotConnected => "not_connected"@,
        AppError::ChannelClosed { .. } => "channel_closed"@,
        AppError::Validation(_) => "validation_error"@,
    }
}

/// The full description of an error.
pub open spec fn description_of(e: AppError) -> Seq<char> {
    match e {
        AppError::Honcho(f) => f.detail@,
        AppError::Keyring(d) => d@,
        AppError::Io(d) => d@,
        AppError::Json(d) => d@,
        AppError::NotConnected => "not connected"@,
        AppError::ChannelClosed { operation } => "channel closed during "@ + operation@,
        AppError::Validation(msg) => msg@,
    }
}

impl AppError {
    /// The error for a reply dropped during `operation`.
    pub fn channel_closed(operation: &'static str) -> (r: Self)
        ensures
            r == (AppError::ChannelClosed { operation }),
    {
        AppError::ChannelClosed { operation }
    }

    /// The message shown to the user.
    pub fn user_message(&self) -> (r: String)
        ensures
            r@ == user_message_of(*self),
    {
        match self {
            AppError::Honcho(f) => f.message.clone(),
            AppError::NotConnected => String::from_str("Not connected to Honcho"),
            AppError::ChannelClosed { .. } => String::from_str("Request was canceled"),
            AppError::Validation(msg) => msg.clone(),
            AppError::Keyring(d) => String::from_str("Keychain error: ").concat(d.as_str()),
            AppError::Io(d) => String::from_str("I/O error: ").concat(d.as_str()),
            AppError::Json(d) => String::from_str("JSON error: ").concat(d.as_str()),
        }
    }

    /// The stable code of the error.
    pub fn code(&self) -> (r: &'static str)
        ensures
            r@ == code_of(*self),
    {
        match self {
            AppError::Honcho(f) => f.code,
            AppError::Keyring(_) => "keyring_error",
            AppError::Io(_) => "io_error",
            AppError::Json(_) => "json_error",
            AppError::NotConnected => "not_connected",
            AppError::ChannelClosed { .. } => "channel_closed",
            AppError::Validation(_) => "validation_error",
        }
    }

    /// Whether retrying may help: only failures of the service that its retry
    /// policy retries.
    pub fn is_retryable(&self) -> (r: bool)
        ensures
            r == (*self matches AppError::Honcho(f) && f.retryable),
    {
        match self {
            AppError::Honcho(f) => f.retryable,
            _ => false,
        }
    }

    /// How long the service asked to wait before retrying, if it did.
    pub fn retry_after(&self) -> (r: Option<Duration>)
        ensures
            r == match *self {
                AppError::Honcho(f) => f.retry_after,
                _ => None,
            },
    {
        match self {
            AppError::Honcho(f) => f.retry_after,
            _ => None,
        }
    }

    /// The full description of the error.
    pub fn to_string(&self) -> (r: String)
        ensures
            r@ == description_of(*self),
    {
        match self {
            AppError::Honcho(f) => f.detail.clone(),
            AppError::Keyring(d) => d.clone(),
            AppError::Io(d) => d.clone(),
            AppError::Json(d) => d.clone(),
            AppError::NotConnected => String::from_str("not connected"),
            AppError::ChannelClosed { operation } => String::from_str(
                "channel closed during ",
            ).concat(operation),
            AppError::Validation(msg) => msg.clone(),
        }
    }
}

} // verus!
