//! User records and the requests that create or authenticate one.

use argon2::password_hash::rand_core::OsRng;
use argon2::password_hash::SaltString;
use argon2::{Argon2, PasswordHash, PasswordHasher, PasswordVerifier};
use vstd::prelude::*;

use crate::error::Error;
use crate::text::{trim, trimmed};

verus! {

/// What a stored password hash says of a password.
#[derive(Debug, Clone, Copy, PartialEq, Eq, Structural)]
pub enum PasswordCheck {
    /// The password is the one that was hashed.
    Accepted,
    /// The password is another.
    Rejected,
    /// The stored text is no hash that can be checked.
    Unusable,
}

/// What `Argon2::default()` says of a password and a stored hash in PHC
/// string form, under the parameters and the salt that the hash names.
pub uninterp spec fn password_checked(password: Seq<char>, stored: Seq<char>) -> PasswordCheck;

/// Checks a password against a stored hash.
///
/// Calls `PasswordHash::new` on the stored text and `verify_password` of
/// `Argon2::default()` on the password's bytes. The error `Password` of the
/// crate means that the password is another; any other error, of either
/// call, that the stored text cannot be checked.
#[verifier::external_body]
fn argon2_verify(password: &str, stored: &str) -> (r: PasswordCheck)
    ensures
        r == password_checked(password@, stored@),
{
    let checked = PasswordHash::new(stored).and_then(|hash| {
        Argon2::default().verify_password(password.as_bytes(), &hash)
    });
    match checked {
        Ok(()) => PasswordCheck::Accepted,
        Err(argon2::password_hash::Error::Password) => PasswordCheck::Rejected,
        Err(_) => PasswordCheck::Unusable,
    }
}

/// Hashes a password under a new random salt.
///
/// Calls `SaltString::generate` with the operating system's generator and
/// `hash_password` of `Argon2::default()`, and hands back the PHC string, or
/// nothing where hashing fails. The text differs from call to call. What
/// holds of each is that it names its salt and parameters, so that
/// `verify_password` computes the same output from the same password and
/// accepts it.
#[verifier::external_body]
fn argon2_hash(password: &str) -> (r: Option<String>)
    ensures
        r matches Some(hash) ==> password_checked(password@, hash@) == PasswordCheck::Accepted,
{
    let salt = SaltString::generate(&mut OsRng);
    Argon2::default().hash_password(password.as_bytes(), &salt).ok().map(|hash| hash.to_string())
}

/// Hashes a password for storage. The hash is salted anew at each call and
/// accepts the password it was made of; the one failure is `PasswordHash`.
pub fn password_hash(plain_password: &str) -> (r: Result<String, Error>)
    ensures
        match r {
            Ok(hash) => password_checked(plain_password@, hash@) == PasswordCheck::Accepted,
            Err(err) => err == Error::PasswordHash,
        },
{
    match argon2_hash(plain_password) {
        Some(hash) => Ok(hash),
        None => Err(Error::PasswordHash),
    }
}

#[derive(Debug, Clone)]
pub struct RegisterUser {
    pub email: String,
    pub name: String,
    pub password: String,
}

#[derive(Debug, Clone)]
pub struct LoginUser {
    pub email: String,
    pub password: String,
}

impl LoginUser {
    pub fn email(&self) -> (r: &str)
        ensures
            r@ == self.email@,
    {
        self.email.as_str()
    }

    pub fn password(&self) -> (r: &str)
        ensures
            r@ == self.password@,
    {
        self.password.as_str()
    }
}

impl RegisterUser {
    /// The values to store for a new user: the email and the name trimmed,
    /// and in place of the password a hash that accepts it.
    pub fn to_store(&self) -> (r: Result<RegisterUser, Error>)
        ensures
            match r {
                Ok(row) => {
                    &&& row.email@ == trimmed(self.email@)
                    &&& row.name@ == trimmed(self.name@)
                    &&& password_checked(self.password@, row.password@) == PasswordCheck::Accepted
                },
                Err(err) => err == Error::PasswordHash,
            },
    {
        let password = match password_hash(self.password.as_str()) {
            Ok(hash) => hash,
            Err(err) => {
                return Err(err);
            },
        };
        Ok(
            RegisterUser {
                email: trim(self.email.as_str()),
                name: trim(self.name.as_str()),
                password,
            },
        )
    }
}

/// A stored user. `pid` is the 128-bit value of the user's public UUID and
/// `password` the stored password hash.
#[derive(Debug, Clone)]
pub struct User {
    pub id: i32,
    pub pid: u128,
    pub email: String,
    pub name: String,
    pub password: String,
}

impl User {
    /// What checking a password against this user's stored hash gives:
    /// `InvalidCredentials` for another password, `PasswordHash` where the
    /// stored hash cannot be checked.
    pub open spec fn password_verdict(&self, password: Seq<char>) -> Result<(), Error> {
        match password_checked(password, self.password@) {
            PasswordCheck::Accepted => Ok(()),
            PasswordCheck::Rejected => Err(Error::InvalidCredentials),
            PasswordCheck::Unusable => Err(Error::PasswordHash),
        }
    }

    pub fn verify_password(&self, password: &str) -> (r: Result<(), Error>)
        ensures
            r == self.password_verdict(password@),
    {
        match argon2_verify(password, self.password.as_str()) {
            PasswordCheck::Accepted => Ok(()),
            PasswordCheck::Rejected => Err(Error::InvalidCredentials),
            PasswordCheck::Unusable => Err(Error::PasswordHash),
        }
    }

    pub fn pid(&self) -> (r: u128)
        ensures
            r == self.pid,
    {
        self.pid
    }

    pub fn email(&self) -> (r: &str)
        ensures
            r@ == self.email@,
    {
        self.email.as_str()
    }

    pub fn name(&self) -> (r: &str)
        ensures
            r@ == self.name@,
    {
        self.name.as_str()
    }

    pub fn id(&self) -> (r: i32)
        ensures
            r == self.id,
    {
        self.id
    }
}

} // verus!
