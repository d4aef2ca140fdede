//! The kinds every failure is brought to before it leaves the service.

use vstd::prelude::*;

verus! {

/// What went wrong, as far as a caller is told.
#[derive(Debug, Clone, Copy, PartialEq, Eq)]
pub enum ErrorKind {
    /// An identifier or another input was malformed or empty.
    Validation,
    /// No record matches that the caller owns.
    NotFound,
    /// A unique field is taken already.
    Conflict,
    /// The token or the credentials were not accepted.
    Auth,
    /// Key derivation or authenticated encryption failed.
    Crypto,
    /// The store could not be reached or refused the operation.
    Persistence,
}

/// The store could not be reached or refused an operation. The detail is for
/// the operator and never part of an answer.
#[derive(Debug)]
pub struct PersistenceError {
    pub detail: String,
}

impl ErrorKind {
    /// The HTTP status that stands for this kind.
    pub open spec fn spec_status(self) -> u16 {
        match self {
            ErrorKind::Validation => 400,
            ErrorKind::NotFound => 404,
            ErrorKind::Conflict => 409,
            ErrorKind::Auth => 401,
            ErrorKind::Crypto => 500,
            ErrorKind::Persistence => 500,
        }
    }

    /// The HTTP status that stands for this kind.
    #[verifier::when_used_as_spec(spec_status)]
    pub fn status(self) -> (res: u16)
        ensures
            res == self.spec_status(),
    {
        match self {
            ErrorKind::Validation => 400,
            ErrorKind::NotFound => 404,
            ErrorKind::Conflict => 409,
            ErrorKind::Auth => 401,
            ErrorKind::Crypto => 500,
            ErrorKind::Persistence => 500,
        }
    }
}

} // verus!
