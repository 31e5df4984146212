//! The settings of the two token classes.

use vstd::prelude::*;

verus! {

/// Where the RSA key pair of one token class lies, and the lifetime of its
/// tokens in seconds.
#[derive(Debug, Clone)]
pub struct RsaJwtConfig {
    pub private_key: String,
    pub public_key: String,
    pub exp: i64,
}

impl RsaJwtConfig {
    pub fn private_key(&self) -> (r: &str)
        ensures
            r@ == self.private_key@,
    {
        self.private_key.as_str()
    }

    pub fn public_key(&self) -> (r: &str)
        ensures
            r@ == self.public_key@,
    {
        self.public_key.as_str()
    }

    pub fn exp(&self) -> (r: i64)
        ensures
            r == self.exp,
    {
        self.exp
    }
}

#[derive(Debug, Clone)]
pub struct AuthConfig {
    pub access: RsaJwtConfig,
    pub refresh: RsaJwtConfig,
}

impl AuthConfig {
    pub fn access(&self) -> (r: &RsaJwtConfig)
        ensures
            r == &self.access,
    {
        &self.access
    }

    pub fn refresh(&self) -> (r: &RsaJwtConfig)
        ensures
            r == &self.refresh,
    {
        &self.refresh
    }
}

} // verus!
