//! The errors that the service reports at its boundary.

use vstd::prelude::*;
use vstd::std_specs::cmp::PartialEqSpecImpl;

verus! {

/// The kinds of rejection that a caller of the service can see. The kinds
/// are deliberately coarse: a caller never learns whether an address is
/// registered, nor why a token was refused.
#[derive(Debug)]
pub enum AuthAPIError {
    UserAlreadyExists,
    /// The input is not of the shape asked for.
    InvalidCredentials,
    /// The input is well formed but does not authenticate anybody.
    IncorrectCredentials,
    MissingToken,
    InvalidToken,
    /// A store or the notifier failed; the text describes the cause.
    UnexpectedError(String),
}

impl AuthAPIError {
    /// The HTTP status that stands for this kind of error.
    pub fn status_code(&self) -> (code: u16)
        ensures
            code == match *self {
                AuthAPIError::UserAlreadyExists => 409u16,
                AuthAPIError::InvalidCredentials => 400u16,
                AuthAPIError::IncorrectCredentials => 401u16,
                AuthAPIError::MissingToken => 400u16,
                AuthAPIError::InvalidToken => 401u16,
                AuthAPIError::UnexpectedError(_) => 500u16,
            },
    {
        match self {
            AuthAPIError::UserAlreadyExists => 409,
            AuthAPIError::InvalidCredentials => 400,
            AuthAPIError::IncorrectCredentials => 401,
            AuthAPIError::MissingToken => 400,
            AuthAPIError::InvalidToken => 401,
            AuthAPIError::UnexpectedError(_) => 500,
        }
    }

    /// The sentence shown to the caller. It names the kind of error and
    /// never its cause.
    pub fn message(&self) -> (m: &'static str)
        ensures
            m@ == match *self {
                AuthAPIError::UserAlreadyExists => "User already exists"@,
                AuthAPIError::InvalidCredentials => "Invalid credentials"@,
                AuthAPIError::IncorrectCredentials => "Incorrect credentials"@,
                AuthAPIError::MissingToken => "Missing auth token"@,
                AuthAPIError::InvalidToken => "Invalid auth token"@,
                AuthAPIError::UnexpectedError(_) => "Unexpected error"@,
            },
    {
        match self {
            AuthAPIError::UserAlreadyExists => "User already exists",
            AuthAPIError::InvalidCredentials => "Invalid credentials",
            AuthAPIError::IncorrectCredentials => "Incorrect credentials",
            AuthAPIError::MissingToken => "Missing auth token",
            AuthAPIError::InvalidToken => "Invalid auth token",
            AuthAPIError::UnexpectedError(_) => "Unexpected error",
        }
    }
}

impl PartialEq for AuthAPIError {
    /// Two errors are equal when they are of the same kind, whatever the
    /// cause of an unexpected one.
    fn eq(&self, other: &Self) -> (r: bool) {
        match (self, other) {
            (AuthAPIError::UserAlreadyExists, AuthAPIError::UserAlreadyExists) => true,
            (AuthAPIError::InvalidCredentials, AuthAPIError::InvalidCredentials) => true,
            (AuthAPIError::IncorrectCredentials, AuthAPIError::IncorrectCredentials) => true,
            (AuthAPIError::MissingToken, AuthAPIError::MissingToken) => true,
            (AuthAPIError::InvalidToken, AuthAPIError::InvalidToken) => true,
            (AuthAPIError::UnexpectedError(_), AuthAPIError::UnexpectedError(_)) => true,
            _ => false,
        }
    }
}

impl PartialEqSpecImpl for AuthAPIError {
    open spec fn obeys_eq_spec() -> bool {
        true
    }

    open spec fn eq_spec(&self, other: &Self) -> bool {
        match (*self, *other) {
            (AuthAPIError::UserAlreadyExists, AuthAPIError::UserAlreadyExists) => true,
            (AuthAPIError::InvalidCredentials, AuthAPIError::InvalidCredentials) => true,
            (AuthAPIError::IncorrectCredentials, AuthAPIError::IncorrectCredentials) => true,
            (AuthAPIError::MissingToken, AuthAPIError::MissingToken) => true,
            (AuthAPIError::InvalidToken, AuthAPIError::InvalidToken) => true,
            (AuthAPIError::UnexpectedError(_), AuthAPIError::UnexpectedError(_)) => true,
            _ => false,
        }
    }
}

} // verus!
