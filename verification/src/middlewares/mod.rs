//! The request stages and what they share.

pub mod auth;
pub mod error;
pub mod extract;
pub mod refresh;
pub mod stamp;

pub use self::auth::AuthLayer;
pub use self::error::{AuthError, ErrorResponse};
pub use self::extract::RequestHeaders;
pub use self::refresh::RefreshLayer;
pub use self::stamp::Stamp;
