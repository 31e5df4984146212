//! Failures of the user records.

use vstd::prelude::*;

use crate::middlewares::error::ErrorResponse;

verus! {

#[derive(Debug, Clone, Copy, PartialEq, Eq, Structural)]
pub enum ModelError {
    EntityAlreadyExists,
    EntityNotFound,
    /// The database refused or failed a statement.
    Sqlx,
    /// A stored id is no UUID.
    Uuid,
}

impl ModelError {
    /// The status code of the response for this error.
    pub open spec fn status(&self) -> int {
        match self {
            ModelError::EntityAlreadyExists => 409,
            ModelError::EntityNotFound => 404,
            _ => 500,
        }
    }

    /// The message of the response for this error.
    pub open spec fn message(&self) -> Seq<char> {
        match self {
            ModelError::EntityAlreadyExists => "Entity already exists"@,
            ModelError::EntityNotFound => "Entity not found"@,
            _ => "Internal Server Error"@,
        }
    }

    pub fn response(&self) -> (r: ErrorResponse)
        ensures
            r.is(self.status(), self.message()),
    {
        let (status, message): (u16, &str) = match self {
            ModelError::EntityAlreadyExists => (409, "Entity already exists"),
            ModelError::EntityNotFound => (404, "Entity not found"),
            _ => (500, "Internal Server Error"),
        };
        ErrorResponse { status, message: String::from_str(message) }
    }
}

} // verus!
