//! Token claims and token details.

use vstd::prelude::*;

verus! {

/// The view of an optional text.
pub open spec fn text_view(text: Option<String>) -> Option<Seq<char>> {
    match text {
        Some(t) => Some(t@),
        None => None,
    }
}

/// The signed payload of one token. `sub` is the user's public id and `id`
/// the token's own id, both as UUID text; `exp`, `iat` and `nbf` are unix
/// timestamps in seconds.
#[derive(Debug, Clone)]
pub struct TokenClaims {
    pub sub: String,
    pub id: String,
    pub exp: i64,
    pub iat: i64,
    pub nbf: i64,
}

/// What a `TokenClaims` value holds.
pub struct TokenClaimsView {
    pub sub: Seq<char>,
    pub id: Seq<char>,
    pub exp: i64,
    pub iat: i64,
    pub nbf: i64,
}

impl View for TokenClaims {
    type V = TokenClaimsView;

    open spec fn view(&self) -> TokenClaimsView {
        TokenClaimsView {
            sub: self.sub@,
            id: self.id@,
            exp: self.exp,
            iat: self.iat,
            nbf: self.nbf,
        }
    }
}

/// An issued or verified token. Issuance fills `token` and `expires_in`;
/// verification leaves both empty. This is also the record kept in the
/// revocation store. Ids are the 128-bit values of the UUIDs.
#[derive(Debug, Clone)]
pub struct TokenDetails {
    pub token: Option<String>,
    pub token_id: u128,
    pub user_pid: u128,
    pub expires_in: Option<i64>,
}

/// What a `TokenDetails` value holds.
pub struct TokenDetailsView {
    pub token: Option<Seq<char>>,
    pub token_id: u128,
    pub user_pid: u128,
    pub expires_in: Option<i64>,
}

impl View for TokenDetails {
    type V = TokenDetailsView;

    open spec fn view(&self) -> TokenDetailsView {
        TokenDetailsView {
            token: text_view(self.token),
            token_id: self.token_id,
            user_pid: self.user_pid,
            expires_in: self.expires_in,
        }
    }
}

impl TokenDetails {
    /// A copy of these details.
    pub fn duplicate(&self) -> (r: Self)
        ensures
            r@ == self@,
    {
        TokenDetails {
            token: self.token.clone(),
            token_id: self.token_id,
            user_pid: self.user_pid,
            expires_in: self.expires_in,
        }
    }

    /// The identity that a verified token proves: no token text, no expiry.
    pub open spec fn identity(token_id: u128, user_pid: u128) -> TokenDetailsView {
        TokenDetailsView { token: None, token_id, user_pid, expires_in: None }
    }
}

/// What a result that carries token details holds.
pub open spec fn details_view<E>(result: Result<TokenDetails, E>) -> Result<TokenDetailsView, E> {
    match result {
        Ok(details) => Ok(details@),
        Err(err) => Err(err),
    }
}

} // verus!
