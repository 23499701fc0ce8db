//! The library's error type and its mapping onto HTTP-style answers.

use vstd::prelude::*;

verus! {

/// What can go wrong inside the library's own operations.
#[derive(Clone, Copy, Debug, PartialEq, Eq, Structural)]
pub enum Error {
    /// Registration hit a name or address that is already taken.
    UserAlreadyExists,
    /// An authentication token was missing or malformed.
    InvalidToken,
    /// A working location or backend resource could not be provided.
    InternalError,
    /// A metadata document could not be parsed.
    JsonError,
}

impl Error {
    /// The HTTP status code the surrounding service answers with.
    pub open spec fn spec_status_code(self) -> u16 {
        match self {
            Error::UserAlreadyExists => 400,
            Error::InvalidToken => 400,
            Error::InternalError => 500,
            Error::JsonError => 400,
        }
    }

    /// The human-readable message the surrounding service answers with.
    pub open spec fn spec_message(self) -> Seq<char> {
        match self {
            Error::UserAlreadyExists => "User already exists"@,
            Error::InvalidToken => "Invalid token"@,
            Error::InternalError => "Internal error"@,
            Error::JsonError => "Invalid json data"@,
        }
    }

    pub fn status_code(&self) -> (r: u16)
        ensures
            r == self.spec_status_code(),
    {
        match self {
            Error::UserAlreadyExists => 400,
            Error::InvalidToken => 400,
            Error::InternalError => 500,
            Error::JsonError => 400,
        }
    }

    pub fn describe(&self) -> (r: String)
        ensures
            r@ == self.spec_message(),
    {
        match self {
            Error::UserAlreadyExists => "User already exists".to_owned(),
            Error::InvalidToken => "Invalid token".to_owned(),
            Error::InternalError => "Internal error".to_owned(),
            Error::JsonError => "Invalid json data".to_owned(),
        }
    }
}

} // verus!
