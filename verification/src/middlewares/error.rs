//! The reasons for which a request stage turns a request away.

use vstd::prelude::*;

verus! {

/// A status code and the message of the JSON error body `{"error": message}`.
#[derive(Debug, Clone)]
pub struct ErrorResponse {
    pub status: u16,
    pub message: String,
}

impl ErrorResponse {
    /// `true` when this response has the given status and message.
    pub open spec fn is(&self, status: int, message: Seq<char>) -> bool {
        self.status == status && self.message@ == message
    }
}

#[derive(Debug, Clone, Copy, PartialEq, Eq, Structural)]
pub enum AuthError {
    /// A malformed header, a bad signature or a revoked refresh token.
    InvalidToken,
    /// No credential in any transport.
    MissingCredentials,
    /// A new token could not be signed.
    TokenCreation,
    WrongCredentials,
    /// The refresh token is past its expiry.
    Expired,
    /// The revocation store failed or held an unreadable record.
    StoreError,
}

impl AuthError {
    /// The status code of the response for this error.
    pub open spec fn status(&self) -> int {
        match self {
            AuthError::InvalidToken => 401,
            AuthError::MissingCredentials => 400,
            AuthError::TokenCreation => 500,
            AuthError::WrongCredentials => 401,
            AuthError::Expired => 401,
            AuthError::StoreError => 500,
        }
    }

    /// The message of the response for this error.
    pub open spec fn message(&self) -> Seq<char> {
        match self {
            AuthError::InvalidToken => "Invalid token"@,
            AuthError::MissingCredentials => "Credentials missing from request"@,
            AuthError::TokenCreation => "Internal server error"@,
            AuthError::WrongCredentials => "Wrong credentials"@,
            AuthError::Expired => "Token expired"@,
            AuthError::StoreError => "Internal server error"@,
        }
    }

    pub fn response(&self) -> (r: ErrorResponse)
        ensures
            r.is(self.status(), self.message()),
    {
        let (status, message): (u16, &str) = match self {
            AuthError::InvalidToken => (401, "Invalid token"),
            AuthError::MissingCredentials => (400, "Credentials missing from request"),
            AuthError::TokenCreation => (500, "Internal server error"),
            AuthError::WrongCredentials => (401, "Wrong credentials"),
            AuthError::Expired => (401, "Token expired"),
            AuthError::StoreError => (500, "Internal server error"),
        };
        ErrorResponse { status, message: String::from_str(message) }
    }
}

} // verus!
