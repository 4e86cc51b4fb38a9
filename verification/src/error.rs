//! The error taxonomy of the store, and how backend failures are mapped
//! onto it.

use vstd::prelude::*;
use vstd::string::*;

verus! {

/// What an operation of the store can fail with.
#[derive(Clone, Debug, PartialEq)]
pub enum Error {
    VertexDoesNotExist,
    EdgeDoesNotExist,
    AccountNotFound,
    MetadataDoesNotExist,
    WeightOutOfRange,
    OffsetOutOfRange,
    LimitOutOfRange,
    Unexpected(String),
}

/// The mathematical value of an [`Error`]: the same cases, the diagnostic
/// as a sequence of characters.
pub enum ErrorView {
    VertexDoesNotExist,
    EdgeDoesNotExist,
    AccountNotFound,
    MetadataDoesNotExist,
    WeightOutOfRange,
    OffsetOutOfRange,
    LimitOutOfRange,
    Unexpected(Seq<char>),
}

impl View for Error {
    type V = ErrorView;

    open spec fn view(&self) -> ErrorView {
        match self {
            Error::VertexDoesNotExist => ErrorView::VertexDoesNotExist,
            Error::EdgeDoesNotExist => ErrorView::EdgeDoesNotExist,
            Error::AccountNotFound => ErrorView::AccountNotFound,
            Error::MetadataDoesNotExist => ErrorView::MetadataDoesNotExist,
            Error::WeightOutOfRange => ErrorView::WeightOutOfRange,
            Error::OffsetOutOfRange => ErrorView::OffsetOutOfRange,
            Error::LimitOutOfRange => ErrorView::LimitOutOfRange,
            Error::Unexpected(text) => ErrorView::Unexpected(text@),
        }
    }
}

impl Error {
    /// The name of the case, followed by the diagnostic where there is one.
    pub fn message(&self) -> (text: String)
        ensures
            text@ == self@.message(),
    {
        match self {
            Error::VertexDoesNotExist => String::from_str("Vertex does not exist"),
            Error::EdgeDoesNotExist => String::from_str("Edge does not exist"),
            Error::AccountNotFound => String::from_str("Account not found"),
            Error::MetadataDoesNotExist => String::from_str("Metadata does not exist"),
            Error::WeightOutOfRange => String::from_str("Weight out of range"),
            Error::OffsetOutOfRange => String::from_str("Offset out of range"),
            Error::LimitOutOfRange => String::from_str("Limit out of range"),
            Error::Unexpected(text) => String::from_str("Unexpected error: ").concat(text.as_str()),
        }
    }
}

impl ErrorView {
    pub open spec fn message(self) -> Seq<char> {
        match self {
            ErrorView::VertexDoesNotExist => "Vertex does not exist"@,
            ErrorView::EdgeDoesNotExist => "Edge does not exist"@,
            ErrorView::AccountNotFound => "Account not found"@,
            ErrorView::MetadataDoesNotExist => "Metadata does not exist"@,
            ErrorView::WeightOutOfRange => "Weight out of range"@,
            ErrorView::OffsetOutOfRange => "Offset out of range"@,
            ErrorView::LimitOutOfRange => "Limit out of range"@,
            ErrorView::Unexpected(text) => "Unexpected error: "@ + text,
        }
    }
}

/// A failure as the backend driver reports it, reduced to what the store
/// reads of it.
#[derive(Clone, Debug, PartialEq)]
pub enum BackendError {
    /// The database refused the statement: its five-character SQLSTATE
    /// code, its message and, where it gave one, a detail line.
    Db { code: String, message: String, detail: Option<String> },
    /// The connection failed.
    Io,
    /// A value could not be converted between the driver and the database.
    /// This is a defect of the program, never an outcome of an operation.
    Conversion,
}

/// The mathematical value of a [`BackendError`].
pub enum BackendErrorView {
    Db { code: Seq<char>, message: Seq<char>, detail: Option<Seq<char>> },
    Io,
    Conversion,
}

impl View for BackendError {
    type V = BackendErrorView;

    open spec fn view(&self) -> BackendErrorView {
        match self {
            BackendError::Db { code, message, detail } => BackendErrorView::Db {
                code: code@,
                message: message@,
                detail: match detail {
                    Some(d) => Some(d@),
                    None => None,
                },
            },
            BackendError::Io => BackendErrorView::Io,
            BackendError::Conversion => BackendErrorView::Conversion,
        }
    }
}

impl BackendErrorView {
    /// The diagnostic line of a backend failure: `[code] message`, followed
    /// by `: detail` where the database gave one; a fixed sentence for a
    /// failed connection. A conversion failure has no diagnostic line: it
    /// never becomes the result of an operation.
    pub open spec fn description(self) -> Seq<char>
        recommends
            !(self is Conversion),
    {
        match self {
            BackendErrorView::Db { code, message, detail } => {
                let head = "["@ + code + "] "@ + message;
                match detail {
                    Some(d) => head + ": "@ + d,
                    None => head,
                }
            },
            BackendErrorView::Io => "Could not communicate with the database instance"@,
            BackendErrorView::Conversion => arbitrary(),
        }
    }

    /// SQLSTATE 23502 (not-null violation) or 23503 (foreign-key violation):
    /// what an edge upsert raises when one of its two vertices is missing or
    /// the outbound one belongs to another account.
    pub open spec fn is_missing_vertex(self) -> bool {
        match self {
            BackendErrorView::Db { code, .. } => code == "23502"@ || code == "23503"@,
            _ => false,
        }
    }
}

/// The diagnostic line of a backend failure.
pub fn backend_error_description(err: &BackendError) -> (text: String)
    requires
        !(err is Conversion),
    ensures
        text@ == err@.description(),
{
    match err {
        BackendError::Db { code, message, detail } => {
            let mut text = String::from_str("[");
            text.append(code.as_str());
            text.append("] ");
            text.append(message.as_str());
            match detail {
                Some(d) => {
                    text.append(": ");
                    text.append(d.as_str());
                },
                None => {},
            }
            text
        },
        _ => String::from_str("Could not communicate with the database instance"),
    }
}

/// A backend failure as an error of the store: always `Unexpected`, carrying
/// the diagnostic line.
pub fn unexpected_from_backend(err: &BackendError) -> (e: Error)
    requires
        !(err is Conversion),
    ensures
        e@ == ErrorView::Unexpected(err@.description()),
{
    Error::Unexpected(backend_error_description(err))
}

/// The error for a connection pool that lent no connection in time:
/// `Unexpected`, with the pool's reason after a fixed prefix.
pub fn unexpected_from_pool(reason: &str) -> (e: Error)
    ensures
        e@ == ErrorView::Unexpected("Could not fetch connection: "@ + reason@),
{
    Error::Unexpected(String::from_str("Could not fetch connection: ").concat(reason))
}

} // verus!
