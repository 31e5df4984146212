//! Where a request carries its credentials: the `Authorization` header
//! first, a cookie second.

use axum_extra::headers::authorization::Bearer;
use axum_extra::headers::{Authorization, Cookie, Header};
use vstd::prelude::*;

use crate::middlewares::error::AuthError;
use crate::models::token::text_view;

verus! {

/// The cookie that carries the access token.
pub const ACCESS_COOKIE: &'static str = "access_token";

/// The cookie that carries the refresh token.
pub const REFRESH_COOKIE: &'static str = "refresh_token";

/// The header values of a request that hold credentials: the values of its
/// `Authorization` headers and of its `Cookie` headers, each in the order
/// of the request.
#[derive(Debug, Clone)]
pub struct RequestHeaders {
    pub authorization: Vec<Vec<u8>>,
    pub cookie: Vec<Vec<u8>>,
}

/// `true` for a byte that may stand in the text of a header value: a
/// visible ASCII character, a space or a tab.
pub open spec fn is_header_text(byte: u8) -> bool {
    (32 <= byte && byte < 127) || byte == 9
}

/// The byte with an ASCII capital letter put in lower case.
pub open spec fn ascii_lower(byte: u8) -> u8 {
    if 65 <= byte && byte <= 90 {
        (byte + 32) as u8
    } else {
        byte
    }
}

/// `true` when a header value starts with the scheme `Bearer`, in any case,
/// and a space.
pub open spec fn has_bearer_scheme(value: Seq<u8>) -> bool {
    &&& value.len() > 6
    &&& ascii_lower(value[0]) == 98
    &&& ascii_lower(value[1]) == 101
    &&& ascii_lower(value[2]) == 97
    &&& ascii_lower(value[3]) == 114
    &&& ascii_lower(value[4]) == 101
    &&& ascii_lower(value[5]) == 114
    &&& value[6] == 32
}

/// The first index at or after `from` whose byte is neither a space nor a
/// tab; the length where there is none.
pub open spec fn skip_blanks(value: Seq<u8>, from: int) -> int
    decreases value.len() - from,
{
    if 0 <= from < value.len() && (value[from] == 32 || value[from] == 9) {
        skip_blanks(value, from + 1)
    } else {
        from
    }
}

/// The bearer token of one `Authorization` header value: the value must be
/// header text and start with the scheme and a space; the token is what
/// follows, without the spaces and tabs that lead it. Any other value has
/// none.
pub open spec fn bearer_decoded(value: Seq<u8>) -> Option<Seq<char>> {
    if has_bearer_scheme(value) && (forall|i: int|
        0 <= i < value.len() ==> is_header_text(#[trigger] value[i])) {
        let start = skip_blanks(value, 7);
        Some(Seq::new((value.len() - start) as nat, |i: int| value[start + i] as char))
    } else {
        None
    }
}

/// The value that the typed `Cookie` header of the `headers` crate finds
/// under a name in the `Cookie` header values of a request.
pub uninterp spec fn cookie_found(values: Seq<Seq<u8>>, name: Seq<char>) -> Option<Seq<char>>;

/// Reads a bearer token from one `Authorization` header value.
///
/// Calls `Authorization::<Bearer>::decode` of the `headers` crate on the
/// value and hands back `token()`. The crate takes a value that is longer
/// than the scheme, has a space after it and starts with the scheme in any
/// case, and that `to_str` of `http::HeaderValue` reads as text; `token()`
/// is the text after the first seven bytes, with `trim_start` applied. A
/// value that `http::HeaderValue` does not take is rejected as well.
#[verifier::external_body]
fn decode_bearer(value: &Vec<u8>) -> (r: Option<String>)
    ensures
        text_view(r) == bearer_decoded(value@),
{
    let value = axum::http::HeaderValue::from_bytes(value).ok()?;
    let header = Authorization::<Bearer>::decode(&mut std::iter::once(&value)).ok()?;
    Some(header.token().to_owned())
}

/// Looks a cookie up in the `Cookie` header values of a request.
///
/// Calls `Cookie::decode` of the `headers` crate on the values and then
/// `get`. Values that `http::HeaderValue` does not take hold no cookie.
#[verifier::external_body]
fn decode_cookie(values: &Vec<Vec<u8>>, name: &str) -> (r: Option<String>)
    ensures
        text_view(r) == cookie_found(values.deep_view(), name@),
{
    let values: Result<Vec<_>, _> = values.iter().map(|v| axum::http::HeaderValue::from_bytes(v)).collect();
    let jar = Cookie::decode(&mut values.ok()?.iter()).ok()?;
    jar.get(name).map(str::to_owned)
}

/// What an extraction result holds.
pub open spec fn credential_view(found: Result<Option<String>, AuthError>) -> Result<
    Option<Seq<char>>,
    AuthError,
> {
    match found {
        Ok(token) => Ok(text_view(token)),
        Err(err) => Err(err),
    }
}

impl RequestHeaders {
    /// The bearer token of the request: none without an `Authorization`
    /// header, the token of the first such header where it is well formed,
    /// and `InvalidToken` where it is not.
    pub open spec fn bearer(&self) -> Result<Option<Seq<char>>, AuthError> {
        if self.authorization@.len() == 0 {
            Ok(None)
        } else {
            match bearer_decoded(self.authorization@[0]@) {
                Some(token) => Ok(Some(token)),
                None => Err(AuthError::InvalidToken),
            }
        }
    }

    /// The value of the named cookie: none without a `Cookie` header.
    pub open spec fn cookie_value(&self, name: Seq<char>) -> Option<Seq<char>> {
        if self.cookie@.len() == 0 {
            None
        } else {
            cookie_found(self.cookie.deep_view(), name)
        }
    }

    /// The credential of the request: the bearer token where the request has
    /// an `Authorization` header, else the named cookie. A malformed header
    /// is an error and hides the cookie.
    pub open spec fn credential(&self, cookie_name: Seq<char>) -> Result<Option<Seq<char>>, AuthError> {
        match self.bearer() {
            Ok(None) => Ok(self.cookie_value(cookie_name)),
            found => found,
        }
    }

    pub fn bearer_token(&self) -> (r: Result<Option<String>, AuthError>)
        ensures
            credential_view(r) == self.bearer(),
    {
        if self.authorization.len() == 0 {
            return Ok(None);
        }
        match decode_bearer(&self.authorization[0]) {
            Some(token) => Ok(Some(token)),
            None => Err(AuthError::InvalidToken),
        }
    }

    pub fn cookie(&self, name: &str) -> (r: Option<String>)
        ensures
            text_view(r) == self.cookie_value(name@),
    {
        if self.cookie.len() == 0 {
            return None;
        }
        decode_cookie(&self.cookie, name)
    }

    /// Finds the credential of the request: header first, cookie second.
    pub fn extract(&self, cookie_name: &str) -> (r: Result<Option<String>, AuthError>)
        ensures
            credential_view(r) == self.credential(cookie_name@),
    {
        match self.bearer_token() {
            Ok(None) => Ok(self.cookie(cookie_name)),
            found => found,
        }
    }
}

} // verus!
