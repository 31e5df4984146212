//! Dual-token session authentication: signed access and refresh tokens,
//! credential extraction, revocation-store commands and the two request
//! stages that decide whether a request proceeds.

pub mod clock;
pub mod config;
pub mod context;
pub mod controllers;
pub mod error;
pub mod ids;
pub mod jwt;
pub mod laws;
pub mod middlewares;
pub mod models;
pub mod store;
pub mod text;

pub use self::error::Error;
