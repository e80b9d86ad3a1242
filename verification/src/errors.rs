//! The error taxonomy of the service, with its single mapping to HTTP status
//! codes: malformed input is a client error, a missing row is not found, and
//! everything else — pool exhaustion, store failures, worker dispatch
//! failures — is a server error.

use vstd::prelude::*;

verus! {

/// Every failure a request handler can report. Each variant maps to exactly
/// one HTTP status code, kept in one place in [`UserError::status_code`].
#[derive(Clone, Copy, Debug, PartialEq, Eq, Structural)]
pub enum UserError {
    /// Malformed or missing client input, detected before any resource use.
    ValidationError,
    /// No database connection became available within the acquisition timeout.
    DBPoolGetError,
    /// The query found no matching row; an expected outcome, not a fault.
    NotFoundError,
    /// Any other database, filesystem or worker-dispatch failure.
    UnexpectedError,
    /// The required file part was absent from a multipart upload; surfaced to
    /// the client in the same class as a validation failure.
    MissingUpload,
}

impl UserError {
    /// The HTTP status code this error is surfaced as.
    pub open spec fn status_spec(self) -> u16 {
        match self {
            UserError::ValidationError => 400,
            UserError::DBPoolGetError => 500,
            UserError::NotFoundError => 404,
            UserError::UnexpectedError => 500,
            UserError::MissingUpload => 400,
        }
    }

    /// Maps this error to the HTTP status code it is answered with.
    pub fn status_code(&self) -> (c: u16)
        ensures
            c == self.status_spec(),
    {
        match self {
            UserError::ValidationError => 400,
            UserError::DBPoolGetError => 500,
            UserError::NotFoundError => 404,
            UserError::UnexpectedError => 500,
            UserError::MissingUpload => 400,
        }
    }
}

} // verus!
