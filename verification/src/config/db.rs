//! The settings of the database and of the revocation store.

use vstd::prelude::*;

verus! {

#[derive(Debug, Clone)]
pub struct DatabaseConfig {
    pub uri: String,
    pub username: String,
    pub host: String,
    pub password: String,
    pub database: String,
    pub port: u16,
    pub ssl: bool,
}

impl DatabaseConfig {
    pub fn url(&self) -> (r: &str)
        ensures
            r@ == self.uri@,
    {
        self.uri.as_str()
    }
}

#[derive(Debug, Clone)]
pub struct RedisConfig {
    pub uri: String,
}

impl RedisConfig {
    pub fn uri(&self) -> (r: &str)
        ensures
            r@ == self.uri@,
    {
        self.uri.as_str()
    }
}

} // verus!
