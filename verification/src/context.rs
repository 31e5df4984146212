//! The token codec of one token class, and the pair of codecs that a
//! deployment holds.

use vstd::prelude::*;

use crate::clock::unix_now;
use crate::config::Config;
use crate::error::Error;
use crate::ids::{format_uuid, fresh_id, uuid_text};
use crate::jwt::{
    claim_fields, fits_rs256, jwt_decoded, jwt_signed, judge, key_fits, lemma_claims_round_trip,
    rs256_decode, sign_claims, verdict, write_claims, VerifyError,
};
use crate::models::token::{
    details_view, TokenClaims, TokenClaimsView, TokenDetails, TokenDetailsView,
};
use crate::store::{command_view, put_command, refresh_key, StoreCommand, StoreCommandView};

verus! {

/// The codec of one token class: an RSA key pair in PEM form and the
/// lifetime of a token in seconds.
#[derive(Debug, Clone)]
pub struct JwtContext {
    pub encoding_key: Vec<u8>,
    pub decoding_key: Vec<u8>,
    pub exp: i64,
}

/// What the request stages and the handlers share: the settings and the
/// token codecs.
#[derive(Debug, Clone)]
pub struct AppContext {
    pub config: Config,
    pub auth: AuthContext,
}

impl AppContext {
    pub fn new(config: Config, auth: AuthContext) -> (r: Self)
        ensures
            r.config == config,
            r.auth == auth,
    {
        AppContext { config, auth }
    }

    /// The command that stores the record of a refresh token at `now`. A
    /// token whose expiry is reached is not stored.
    pub fn store_refresh_token_at(&self, token_details: &TokenDetails, now: i64) -> (r: Result<
        StoreCommand,
        Error,
    >)
        ensures
            command_view(r) == put_command(token_details@, now),
    {
        crate::store::put(token_details.duplicate(), now)
    }

    /// The command that stores the record of a refresh token at the current
    /// time.
    pub fn store_refresh_token(&self, token_details: &TokenDetails) -> (r: Result<
        StoreCommand,
        Error,
    >)
        ensures
            exists|now: i64| command_view(r) == #[trigger] put_command(token_details@, now),
    {
        let now = unix_now();
        self.store_refresh_token_at(token_details, now)
    }

    /// The command that revokes the session of a refresh token.
    pub fn revoke_refresh_token(&self, token_id: u128) -> (r: StoreCommand)
        ensures
            r@ == (StoreCommandView::Delete { key: refresh_key(token_id) }),
    {
        crate::store::delete(token_id)
    }
}

/// The two codecs of a deployment. Their key pairs are independent.
#[derive(Debug, Clone)]
pub struct AuthContext {
    pub access: JwtContext,
    pub refresh: JwtContext,
}

/// The claims of a token issued at `now` to the user `sub` under the id
/// `token_id`, with a lifetime of `ttl` seconds.
pub open spec fn issued_claims(sub: u128, token_id: u128, now: i64, ttl: i64) -> TokenClaimsView {
    TokenClaimsView {
        sub: uuid_text(sub),
        id: uuid_text(token_id),
        exp: (now + ttl) as i64,
        iat: now,
        nbf: now,
    }
}

impl JwtContext {
    /// Builds the codec of one token class. A signing key that is no RSA
    /// private key, or one too short to sign with RS256, is refused here,
    /// before any request is served.
    pub fn new(encoding_key: Vec<u8>, decoding_key: Vec<u8>, exp: i64) -> (r: Result<Self, Error>)
        ensures
            match r {
                Ok(ctx) => {
                    &&& fits_rs256(encoding_key@)
                    &&& ctx.encoding_key == encoding_key
                    &&& ctx.decoding_key == decoding_key
                    &&& ctx.exp == exp
                },
                Err(err) => !fits_rs256(encoding_key@) && err == Error::JsonWebToken,
            },
    {
        if !key_fits(&encoding_key) {
            return Err(Error::JsonWebToken);
        }
        Ok(JwtContext { encoding_key, decoding_key, exp })
    }

    /// What issuing a token to `sub` under `token_id` at `now` gives, with
    /// `seed` to blind the signing: the signed claims with their expiry,
    /// `TokenError` where the expiry does not fit a timestamp,
    /// `JsonWebToken` where the signing fails.
    pub open spec fn issued(&self, sub: u128, token_id: u128, now: i64, seed: u128) -> Result<
        TokenDetailsView,
        Error,
    > {
        if now + self.exp < i64::MIN || now + self.exp > i64::MAX {
            Err(Error::TokenError)
        } else {
            match jwt_signed(
                self.encoding_key@,
                claim_fields(issued_claims(sub, token_id, now, self.exp)),
                seed,
            ) {
                Some(token) => Ok(
                    TokenDetailsView {
                        token: Some(token),
                        token_id,
                        user_pid: sub,
                        expires_in: Some((now + self.exp) as i64),
                    },
                ),
                None => Err(Error::JsonWebToken),
            }
        }
    }

    /// What verifying a token at `now` gives.
    pub open spec fn verified(&self, token: Seq<char>, now: i64) -> Result<
        TokenDetailsView,
        VerifyError,
    > {
        verdict(jwt_decoded(token, self.decoding_key@), now)
    }

    /// Issues a token to `sub` under the given id and time, with `seed` to
    /// blind the signing. The seed must be secret and new for each token.
    ///
    /// Whatever the signature, the claims that are signed verify to
    /// `token_id` and `sub` at every time from `now` to the expiry.
    pub fn generate_token_with(&self, sub: u128, token_id: u128, now: i64, seed: u128) -> (r:
        Result<TokenDetails, Error>)
        ensures
            details_view(r) == self.issued(sub, token_id, now, seed),
            i64::MIN <= now + self.exp <= i64::MAX ==> forall|at: i64|
                now <= at <= now + self.exp ==> #[trigger] verdict(
                    Ok(claim_fields(issued_claims(sub, token_id, now, self.exp))),
                    at,
                ) == Ok::<TokenDetailsView, VerifyError>(TokenDetails::identity(token_id, sub)),
    {
        let expires_in = match now.checked_add(self.exp) {
            Some(at) => at,
            None => {
                return Err(Error::TokenError);
            },
        };
        let claims = TokenClaims {
            sub: format_uuid(sub),
            id: format_uuid(token_id),
            exp: expires_in,
            iat: now,
            nbf: now,
        };
        proof {
            assert(claims@ == issued_claims(sub, token_id, now, self.exp));
            lemma_claims_round_trip(claims@);
        }
        let fields = write_claims(&claims);
        match sign_claims(&self.encoding_key, &fields, seed) {
            Some(token) => Ok(
                TokenDetails {
                    token: Some(token),
                    token_id,
                    user_pid: sub,
                    expires_in: Some(expires_in),
                },
            ),
            None => Err(Error::JsonWebToken),
        }
    }

    /// Issues a token to `sub` under a fresh random id, at the current time.
    pub fn generate_token(&self, sub: u128) -> (r: Result<TokenDetails, Error>)
        ensures
            exists|token_id: u128, now: i64, seed: u128|
                details_view(r) == #[trigger] self.issued(sub, token_id, now, seed),
    {
        let now = unix_now();
        let token_id = fresh_id();
        let seed = fresh_id();
        self.generate_token_with(sub, token_id, now, seed)
    }

    /// Verifies a token at the time `now`.
    pub fn verify_token_at(&self, token: &str, now: i64) -> (r: Result<TokenDetails, VerifyError>)
        ensures
            details_view(r) == self.verified(token@, now),
    {
        judge(rs256_decode(token, &self.decoding_key), now)
    }

    /// Verifies a token at the current time.
    pub fn verify_token(&self, token: &str) -> (r: Result<TokenDetails, VerifyError>)
        ensures
            exists|now: i64| details_view(r) == #[trigger] self.verified(token@, now),
    {
        let now = unix_now();
        self.verify_token_at(token, now)
    }
}

} // verus!
