//! The errors of the service, by kind.

use vstd::prelude::*;
use vstd::string::*;

verus! {

/// What went wrong, as far as callers tell errors apart.
#[derive(Debug, PartialEq, Eq, Structural, Clone, Copy)]
pub enum ErrorKind {
    /// A lookup found no row.
    NotFound,
    /// A row with the same unique key exists already.
    Conflict,
    /// A statement touched a number of rows that it cannot touch.
    Validation,
    /// The OAuth provider failed or refused.
    UpstreamError,
    /// The request carries no good session.
    Unauthenticated,
    /// The account is not allowed in.
    Forbidden,
    /// Anything else, failures of the store among it.
    Internal,
}

impl ErrorKind {
    /// The HTTP status that reports an error of this kind. Only a missing
    /// session and a refused account have a status of their own: every other
    /// error is reported as an internal one.
    pub open spec fn spec_status(self) -> u16 {
        match self {
            ErrorKind::Unauthenticated => 401,
            ErrorKind::Forbidden => 403,
            _ => 500,
        }
    }

    /// See [`ErrorKind::spec_status`].
    pub fn status(self) -> (status: u16)
        ensures
            status == self.spec_status(),
    {
        match self {
            ErrorKind::Unauthenticated => 401,
            ErrorKind::Forbidden => 403,
            _ => 500,
        }
    }
}

/// An error of the service: its kind, and a message for the log and the
/// response.
#[derive(Debug)]
pub struct AppError {
    pub kind: ErrorKind,
    pub message: String,
}

impl AppError {
    /// An error of the kind `kind` that says `message`.
    pub fn new(kind: ErrorKind, message: &str) -> (e: AppError)
        ensures
            e.kind == kind,
            e.message@ == message@,
    {
        AppError { kind, message: String::from_str(message) }
    }
}

/// A result as contracts speak of it: the view of the value, or the kind and
/// the message of the error.
pub enum Outcome<V> {
    Done(V),
    Failed(ErrorKind, Seq<char>),
}

/// Success or an error, as contracts speak of it.
pub open spec fn unit_outcome(r: Result<(), AppError>) -> Outcome<()> {
    match r {
        Ok(_) => Outcome::Done(()),
        Err(e) => Outcome::Failed(e.kind, e.message@),
    }
}

} // verus!
