//! The failure taxonomy shared by the API client and the store.

use vstd::prelude::*;
use crate::text::{decimal, decimal_string};

verus! {

broadcast use vstd::string::group_string_axioms;

/// Everything that can end an ingestion run.
///
/// Failures that arise outside the library (transport, storage, decoding,
/// the local clone) are carried as their diagnostic text.
#[derive(Debug, PartialEq, Eq)]
pub enum DataError {
    /// The store refused or failed an operation.
    DbError(String),
    /// The local clone could not be created or updated.
    GitError(String),
    /// The request could not be sent or its reply could not be read.
    RequestError(String),
    /// A reply body did not have the expected shape.
    JsonError(String),
    /// A file-system operation failed.
    IoError(String),
    /// A repository address or a required setting could not be understood.
    ConfigError(String),
    /// The host signalled that the request quota is exhausted.
    RateLimitError,
    /// The repository or resource does not exist or is not accessible.
    NotFoundError,
    /// Any other reply outside the 2xx range.
    GitHubApiError { status: u16, message: String },
    /// A failure that fits no other kind.
    Other(String),
}

/// The mathematical value of a [`DataError`].
pub enum DataErrorView {
    DbError(Seq<char>),
    GitError(Seq<char>),
    RequestError(Seq<char>),
    JsonError(Seq<char>),
    IoError(Seq<char>),
    ConfigError(Seq<char>),
    RateLimitError,
    NotFoundError,
    GitHubApiError { status: u16, message: Seq<char> },
    Other(Seq<char>),
}

impl View for DataError {
    type V = DataErrorView;

    open spec fn view(&self) -> DataErrorView {
        match *self {
            DataError::DbError(m) => DataErrorView::DbError(m@),
            DataError::GitError(m) => DataErrorView::GitError(m@),
            DataError::RequestError(m) => DataErrorView::RequestError(m@),
            DataError::JsonError(m) => DataErrorView::JsonError(m@),
            DataError::IoError(m) => DataErrorView::IoError(m@),
            DataError::ConfigError(m) => DataErrorView::ConfigError(m@),
            DataError::RateLimitError => DataErrorView::RateLimitError,
            DataError::NotFoundError => DataErrorView::NotFoundError,
            DataError::GitHubApiError { status, message } => DataErrorView::GitHubApiError {
                status,
                message: message@,
            },
            DataError::Other(m) => DataErrorView::Other(m@),
        }
    }
}

/// The diagnostic line of an error.
pub open spec fn message_of(e: DataErrorView) -> Seq<char> {
    match e {
        DataErrorView::DbError(m) => "Database error: "@ + m,
        DataErrorView::GitError(m) => "Git operation error: "@ + m,
        DataErrorView::RequestError(m) => "GitHub API request error: "@ + m,
        DataErrorView::JsonError(m) => "JSON deserialization error: "@ + m,
        DataErrorView::IoError(m) => "IO error: "@ + m,
        DataErrorView::ConfigError(m) => "Configuration error: "@ + m,
        DataErrorView::RateLimitError => "API rate limit exceeded"@,
        DataErrorView::NotFoundError => "Resource not found (404)"@,
        DataErrorView::GitHubApiError { status, message } => "GitHub API error: "@ + decimal(
            status as nat,
        ) + " - "@ + message,
        DataErrorView::Other(m) => "Other error: "@ + m,
    }
}

/// `prefix` followed by `detail`.
fn prefixed(prefix: &str, detail: &str) -> (r: String)
    ensures
        r@ == prefix@ + detail@,
{
    let mut r = String::from_str(prefix);
    r.append(detail);
    r
}

impl DataError {
    /// The diagnostic line shown to the user.
    pub fn message(&self) -> (r: String)
        ensures
            r@ == message_of(self@),
    {
        match self {
            DataError::DbError(m) => prefixed("Database error: ", m.as_str()),
            DataError::GitError(m) => prefixed("Git operation error: ", m.as_str()),
            DataError::RequestError(m) => prefixed("GitHub API request error: ", m.as_str()),
            DataError::JsonError(m) => prefixed("JSON deserialization error: ", m.as_str()),
            DataError::IoError(m) => prefixed("IO error: ", m.as_str()),
            DataError::ConfigError(m) => prefixed("Configuration error: ", m.as_str()),
            DataError::RateLimitError => String::from_str("API rate limit exceeded"),
            DataError::NotFoundError => String::from_str("Resource not found (404)"),
            DataError::GitHubApiError { status, message } => {
                let number = decimal_string(*status as u64);
                let mut r = prefixed("GitHub API error: ", number.as_str());
                r.append(" - ");
                r.append(message.as_str());
                r
            },
            DataError::Other(m) => prefixed("Other error: ", m.as_str()),
        }
    }
}

} // verus!
