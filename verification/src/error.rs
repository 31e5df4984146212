//! The failures of the library as a whole and the responses they become.

use vstd::prelude::*;

use crate::middlewares::error::{AuthError, ErrorResponse};
use crate::models::error::ModelError;

verus! {

/// Every failure a request can end in. A variant named after a subsystem
/// stands for any failure of that subsystem.
#[derive(Debug, Clone, Copy, PartialEq, Eq, Structural)]
pub enum Error {
    Axum,
    Config,
    DirectiveParseError,
    EnvFilter,
    FromEnv,
    IOError,
    TryInit,
    Migrate,
    Redis,
    JsonWebToken,
    Argon2,
    PasswordHash,
    InvalidCredentials,
    TokenError,
    SerdeJson,
    Auth(AuthError),
    Model(ModelError),
}

impl Error {
    /// The status code of the response for this error.
    pub open spec fn status(&self) -> int {
        match self {
            Error::InvalidCredentials => 401,
            Error::Auth(err) => err.status(),
            Error::Model(err) => err.status(),
            _ => 500,
        }
    }

    /// The message of the response for this error.
    pub open spec fn message(&self) -> Seq<char> {
        match self {
            Error::InvalidCredentials => "Invalid email or password"@,
            Error::Auth(err) => err.message(),
            Error::Model(err) => err.message(),
            _ => "Internal Server Error"@,
        }
    }

    pub fn response(&self) -> (r: ErrorResponse)
        ensures
            r.is(self.status(), self.message()),
    {
        let (status, message): (u16, &str) = match self {
            Error::InvalidCredentials => (401, "Invalid email or password"),
            Error::Auth(err) => {
                return err.response();
            },
            Error::Model(err) => {
                return err.response();
            },
            _ => (500, "Internal Server Error"),
        };
        ErrorResponse { status, message: String::from_str(message) }
    }
}

} // verus!
