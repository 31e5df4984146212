//! The credentials that a stage hands on after it has settled on an access
//! token: an `Authorization` header value and a `Set-Cookie` header value.

use axum_extra::extract::cookie::{Cookie, SameSite};
use vstd::prelude::*;

use crate::middlewares::extract::{RequestHeaders, ACCESS_COOKIE};
use crate::text::{join, signed_decimal};

verus! {

/// The `Set-Cookie` value of a cookie with the `SameSite=Lax` policy, a
/// path and a lifetime in seconds: the name and the value around an equals
/// sign, then the attributes `HttpOnly` (where asked for), `SameSite`,
/// `Path` and `Max-Age`, each after a semicolon and a space.
pub open spec fn lax_cookie_text(
    name: Seq<char>,
    value: Seq<char>,
    path: Seq<char>,
    max_age: i64,
    http_only: bool,
) -> Seq<char> {
    name + seq!['='] + value + (if http_only {
        "; HttpOnly"@
    } else {
        Seq::empty()
    }) + "; SameSite=Lax"@ + "; Path="@ + path + "; Max-Age="@ + signed_decimal(max_age as int)
}

/// Writes a cookie as a `Set-Cookie` header value.
///
/// Calls `Cookie::build` of the `cookie` crate with the path, the lifetime
/// as `time::Duration::seconds`, `SameSite::Lax` and the `HttpOnly` flag, and
/// then the `Display` of the cookie, which writes the name and the value as
/// they are and the attributes that are set in the order `HttpOnly`,
/// `SameSite`, `Path`, `Max-Age`.
#[verifier::external_body]
pub(crate) fn render_lax_cookie(
    name: &str,
    value: &str,
    path: &str,
    max_age: i64,
    http_only: bool,
) -> (r: String)
    ensures
        r@ == lax_cookie_text(name@, value@, path@, max_age, http_only),
{
    Cookie::build((name, value))
        .path(path)
        .max_age(time::Duration::seconds(max_age))
        .same_site(SameSite::Lax)
        .http_only(http_only)
        .to_string()
}

/// The two header values that carry an access token onwards.
#[derive(Debug, Clone)]
pub struct Stamp {
    pub authorization: String,
    pub set_cookie: String,
}

/// What a `Stamp` holds.
pub struct StampView {
    pub authorization: Seq<char>,
    pub set_cookie: Seq<char>,
}

impl View for Stamp {
    type V = StampView;

    open spec fn view(&self) -> StampView {
        StampView { authorization: self.authorization@, set_cookie: self.set_cookie@ }
    }
}

/// The stamp of an access token: `Bearer`, a space and the token for the
/// `Authorization` header, and an `access_token` cookie for the whole site
/// that scripts cannot read and that lives as long as an access token.
pub open spec fn access_stamp(token: Seq<char>, max_age: i64) -> StampView {
    StampView {
        authorization: "Bearer "@ + token,
        set_cookie: lax_cookie_text(ACCESS_COOKIE@, token, "/"@, max_age, true),
    }
}

pub fn stamp_access(token: &str, max_age: i64) -> (r: Stamp)
    ensures
        r@ == access_stamp(token@, max_age),
{
    Stamp {
        authorization: join("Bearer ", token),
        set_cookie: render_lax_cookie(ACCESS_COOKIE, token, "/", max_age, true),
    }
}

impl RequestHeaders {
    /// The headers of the request once it carries the stamp: the stamp's
    /// `Authorization` value in place of any the request had, its cookies
    /// as they were.
    pub fn restamped(&self, stamp: &Stamp) -> (r: RequestHeaders)
        ensures
            r.authorization@.len() == 1,
            r.authorization@[0]@ == vstd::utf8::encode_utf8(stamp.authorization@),
            r.cookie.deep_view() == self.cookie.deep_view(),
    {
        let mut authorization: Vec<Vec<u8>> = Vec::new();
        authorization.push(vstd::slice::slice_to_vec(stamp.authorization.as_str().as_bytes()));
        RequestHeaders { authorization, cookie: self.cookie.clone() }
    }
}

} // verus!
