//! The error taxonomy of the library.

use vstd::prelude::*;

verus! {

/// Why a connection was abandoned.
///
/// Parse-time and middleware-time errors abort only the connection they
/// occurred on; no error response is written back to the client.
#[derive(Clone, Copy, Debug, PartialEq, Eq, Structural)]
pub enum HttpError {
    /// The first token of the request line is not one of the nine known
    /// method literals.
    InvalidMethod,
    /// The request line is missing (the connection closed before a first
    /// line arrived).
    BadRequest,
    /// A transport read or write failed.
    IoError,
}

impl HttpError {
    /// The wording of each error, for logs.
    pub open spec fn spec_message(self) -> Seq<char> {
        match self {
            HttpError::InvalidMethod => "Invalid Method"@,
            HttpError::BadRequest => "Bad Request"@,
            HttpError::IoError => "IO Error"@,
        }
    }

    /// A short human-readable description of the error.
    pub fn message(&self) -> (r: String)
        ensures
            r@ == self.spec_message(),
    {
        match self {
            HttpError::InvalidMethod => String::from_str("Invalid Method"),
            HttpError::BadRequest => String::from_str("Bad Request"),
            HttpError::IoError => String::from_str("IO Error"),
        }
    }
}

} // verus!
