//! The records that travel between the token codec, the revocation store
//! and the request stages.

pub mod error;
pub mod token;
pub mod users;

pub use self::error::ModelError;
pub use self::token::{TokenClaims, TokenDetails};
pub use self::users::{LoginUser, RegisterUser, User};
