//! What the handlers decide.

pub mod auth;
