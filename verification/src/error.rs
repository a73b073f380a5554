//! Build errors.

use vstd::prelude::*;
use crate::table::TableError;

verus! {

/// An error of the caller's own making, kept as the message it gave.
#[derive(Debug)]
pub struct CustomError(pub String);

/// Some error occurred.
#[derive(Debug)]
pub enum ErrorKind {
    /// A lookup in a table failed.
    TableError(TableError),
    /// A constructor or an action failed for a reason of its own.
    Custom { error: CustomError },
}

impl ErrorKind {
    /// Wraps an error of the caller's own as a custom error, which keeps the
    /// text that the error displays as.
    pub fn custom<E: core::fmt::Display>(error: E) -> (kind: Self)
        ensures
            kind matches ErrorKind::Custom { error: wrapped }
                && vstd::string::to_string_from_display_ensures::<E>(&error, wrapped.0),
    {
        Self::Custom { error: CustomError(error.to_string()) }
    }
}

impl ErrorKind {
    /// The message of the error.
    pub open spec fn message_of(self) -> Seq<char> {
        match self {
            ErrorKind::TableError(error) => error.message_of(),
            ErrorKind::Custom { error } => error.0@,
        }
    }

    /// The message of the error: the message of the table error, or the text of
    /// the custom error.
    pub fn message(&self) -> (text: String)
        ensures
            text@ == self.message_of(),
    {
        match self {
            ErrorKind::TableError(error) => error.message(),
            ErrorKind::Custom { error } => error.0.clone(),
        }
    }
}

/// An error, by its kind.
#[derive(Debug)]
pub struct Error {
    pub kind: ErrorKind,
}

impl Error {
    /// An error of the given kind.
    pub fn new(kind: ErrorKind) -> (error: Self)
        ensures
            error.kind == kind,
    {
        Self { kind }
    }

    /// The message of the error, which is the message of its kind.
    pub fn message(&self) -> (text: String)
        ensures
            text@ == self.kind.message_of(),
    {
        self.kind.message()
    }

    /// The error that a failed table lookup becomes.
    pub fn from_table(error: TableError) -> (wrapped: Self)
        ensures
            wrapped.kind == ErrorKind::TableError(error),
    {
        Self { kind: ErrorKind::TableError(error) }
    }
}

impl From<TableError> for ErrorKind {
    fn from(error: TableError) -> (kind: Self) {
        ErrorKind::TableError(error)
    }
}

impl vstd::std_specs::convert::FromSpecImpl<TableError> for ErrorKind {
    open spec fn obeys_from_spec() -> bool {
        true
    }

    open spec fn from_spec(error: TableError) -> Self {
        ErrorKind::TableError(error)
    }
}

impl From<ErrorKind> for Error {
    fn from(kind: ErrorKind) -> (error: Self) {
        Error { kind }
    }
}

impl vstd::std_specs::convert::FromSpecImpl<ErrorKind> for Error {
    open spec fn obeys_from_spec() -> bool {
        true
    }

    open spec fn from_spec(kind: ErrorKind) -> Self {
        Error { kind }
    }
}

impl From<TableError> for Error {
    fn from(error: TableError) -> (wrapped: Self) {
        Error { kind: ErrorKind::TableError(error) }
    }
}

impl vstd::std_specs::convert::FromSpecImpl<TableError> for Error {
    open spec fn obeys_from_spec() -> bool {
        true
    }

    open spec fn from_spec(error: TableError) -> Self {
        Error { kind: ErrorKind::TableError(error) }
    }
}

pub type Result<T> = core::result::Result<T, Error>;

} // verus!
