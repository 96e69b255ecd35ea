//! What a caller of the service is told when an operation fails.

use vstd::prelude::*;

verus! {

/// The failures of the service's operations. The cause of a failed check is
/// merged on purpose: a caller cannot tell an unknown identity from a wrong
/// password, nor a wrong code from a stale or consumed challenge.
#[derive(Debug)]
pub enum AuthAPIError {
    /// The identity is registered already.
    UserAlreadyExists,
    /// The credentials, or the second factor, did not match.
    IncorrectCredentials,
    /// The submitted values do not have the shape of credentials.
    InvalidCredentials,
    /// No session token was presented.
    MissingToken,
    /// The session token is malformed, expired or revoked.
    InvalidToken,
    /// A store, the notifier or the token signer failed; the text says what.
    UnexpectedError(String),
}

impl AuthAPIError {
    /// The HTTP status that stands for this error. A wrong password and a
    /// wrong code share one status, and so do all the ways in which a token
    /// can be invalid.
    pub fn status_code(&self) -> (code: u16)
        ensures
            code == match *self {
                AuthAPIError::UserAlreadyExists => 409u16,
                AuthAPIError::IncorrectCredentials => 401u16,
                AuthAPIError::InvalidCredentials => 400u16,
                AuthAPIError::MissingToken => 400u16,
                AuthAPIError::InvalidToken => 401u16,
                AuthAPIError::UnexpectedError(_) => 500u16,
            },
    {
        match self {
            AuthAPIError::UserAlreadyExists => 409,
            AuthAPIError::IncorrectCredentials => 401,
            AuthAPIError::InvalidCredentials => 400,
            AuthAPIError::MissingToken => 400,
            AuthAPIError::InvalidToken => 401,
            AuthAPIError::UnexpectedError(_) => 500,
        }
    }

    /// The message shown for this error; the cause of an unexpected error is
    /// not part of it.
    pub fn to_string(&self) -> (message: String)
        ensures
            message@ == match *self {
                AuthAPIError::UserAlreadyExists => "User already exists"@,
                AuthAPIError::IncorrectCredentials => "Incorrect credentials"@,
                AuthAPIError::InvalidCredentials => "Invalid credentials"@,
                AuthAPIError::MissingToken => "Missing token"@,
                AuthAPIError::InvalidToken => "Invalid token"@,
                AuthAPIError::UnexpectedError(_) => "Unexpected error"@,
            },
    {
        match self {
            AuthAPIError::UserAlreadyExists => "User already exists".to_owned(),
            AuthAPIError::IncorrectCredentials => "Incorrect credentials".to_owned(),
            AuthAPIError::InvalidCredentials => "Invalid credentials".to_owned(),
            AuthAPIError::MissingToken => "Missing token".to_owned(),
            AuthAPIError::InvalidToken => "Invalid token".to_owned(),
            AuthAPIError::UnexpectedError(_) => "Unexpected error".to_owned(),
        }
    }
}

impl PartialEq for AuthAPIError {
    /// Two errors are taken for equal when they are of the same kind,
    /// whatever the cause of an unexpected one.
    fn eq(&self, other: &Self) -> (same: bool) {
        match (self, other) {
            (AuthAPIError::UserAlreadyExists, AuthAPIError::UserAlreadyExists) => true,
            (AuthAPIError::IncorrectCredentials, AuthAPIError::IncorrectCredentials) => true,
            (AuthAPIError::InvalidCredentials, AuthAPIError::InvalidCredentials) => true,
            (AuthAPIError::MissingToken, AuthAPIError::MissingToken) => true,
            (AuthAPIError::InvalidToken, AuthAPIError::InvalidToken) => true,
            (AuthAPIError::UnexpectedError(_), AuthAPIError::UnexpectedError(_)) => true,
            _ => false,
        }
    }
}

impl vstd::std_specs::cmp::PartialEqSpecImpl for AuthAPIError {
    open spec fn obeys_eq_spec() -> bool {
        true
    }

    open spec fn eq_spec(&self, other: &Self) -> bool {
        match (*self, *other) {
            (AuthAPIError::UserAlreadyExists, AuthAPIError::UserAlreadyExists) => true,
            (AuthAPIError::IncorrectCredentials, AuthAPIError::IncorrectCredentials) => true,
            (AuthAPIError::InvalidCredentials, AuthAPIError::InvalidCredentials) => true,
            (AuthAPIError::MissingToken, AuthAPIError::MissingToken) => true,
            (AuthAPIError::InvalidToken, AuthAPIError::InvalidToken) => true,
            (AuthAPIError::UnexpectedError(_), AuthAPIError::UnexpectedError(_)) => true,
            _ => false,
        }
    }
}

} // verus!
