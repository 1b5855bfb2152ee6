//! The failures that cross the service's outer boundary.

use vstd::prelude::*;

verus! {

/// Every way a request can fail, as the caller is told of it. No variant
/// carries a cause: what went wrong inside stays inside.
#[derive(Debug, Clone, Copy, PartialEq, Eq, Structural)]
pub enum AuthAPIError {
    /// Signup for an email that already has a user.
    UserAlreadyExists,
    /// A submitted value is malformed or out of policy.
    InvalidCredentials,
    /// A store, the email client or token signing failed.
    UnexpectedError,
    /// The credentials or the challenge answer do not match.
    IncorrectCredentials,
    /// No session token came with the request.
    MissingToken,
    /// The session token does not validate.
    InvalidToken,
    /// The session token has been revoked already.
    TokenAlreadyInvalidated,
}

impl AuthAPIError {
    /// The HTTP status that reports this failure.
    pub open spec fn spec_status_code(self) -> u16 {
        match self {
            AuthAPIError::UserAlreadyExists => 409,
            AuthAPIError::InvalidCredentials => 400,
            AuthAPIError::UnexpectedError => 500,
            AuthAPIError::IncorrectCredentials => 401,
            AuthAPIError::MissingToken => 400,
            AuthAPIError::InvalidToken => 401,
            AuthAPIError::TokenAlreadyInvalidated => 400,
        }
    }

    /// The message that reports this failure.
    pub open spec fn spec_message(self) -> Seq<char> {
        match self {
            AuthAPIError::UserAlreadyExists => "User already exists"@,
            AuthAPIError::InvalidCredentials => "Invalid credentials"@,
            AuthAPIError::UnexpectedError => "Unexpected error"@,
            AuthAPIError::IncorrectCredentials => "Incorrect credentials"@,
            AuthAPIError::MissingToken => "Missing auth token"@,
            AuthAPIError::InvalidToken => "Invalid auth token"@,
            AuthAPIError::TokenAlreadyInvalidated => "Token already invalidated"@,
        }
    }

    #[verifier::when_used_as_spec(spec_status_code)]
    pub fn status_code(self) -> (status: u16)
        ensures
            status == self.spec_status_code(),
    {
        match self {
            AuthAPIError::UserAlreadyExists => 409,
            AuthAPIError::InvalidCredentials => 400,
            AuthAPIError::UnexpectedError => 500,
            AuthAPIError::IncorrectCredentials => 401,
            AuthAPIError::MissingToken => 400,
            AuthAPIError::InvalidToken => 401,
            AuthAPIError::TokenAlreadyInvalidated => 400,
        }
    }

    pub fn message(self) -> (text: &'static str)
        ensures
            text@ == self.spec_message(),
    {
        match self {
            AuthAPIError::UserAlreadyExists => "User already exists",
            AuthAPIError::InvalidCredentials => "Invalid credentials",
            AuthAPIError::UnexpectedError => "Unexpected error",
            AuthAPIError::IncorrectCredentials => "Incorrect credentials",
            AuthAPIError::MissingToken => "Missing auth token",
            AuthAPIError::InvalidToken => "Invalid auth token",
            AuthAPIError::TokenAlreadyInvalidated => "Token already invalidated",
        }
    }
}

} // verus!
