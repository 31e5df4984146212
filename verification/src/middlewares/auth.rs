//! The guard in front of a handler. It lets a request through with the
//! identity that its access token proves. Where the access token does not
//! verify, the refresh token and the revocation store may still vouch for
//! the session, and the guard then mints a new access token.
//!
//! The guard never talks to the store itself. `begin` either settles the
//! request or asks for the record of the refresh token; `resume` takes the
//! store's reply and settles the request.

use vstd::prelude::*;

use crate::clock::unix_now;
use crate::context::AuthContext;
use crate::ids::fresh_id;
use crate::jwt::VerifyError;
use crate::middlewares::error::AuthError;
use crate::middlewares::extract::{RequestHeaders, ACCESS_COOKIE, REFRESH_COOKIE};
use crate::middlewares::stamp::{access_stamp, stamp_access, Stamp, StampView};
use crate::models::token::{TokenDetails, TokenDetailsView};
use crate::store::{refresh_key, StoreCommand, StoreCommandView, StoreReply, StoreReplyView};

verus! {

/// The rejection that a failed verification of the refresh token ends in.
pub open spec fn refusal(err: VerifyError) -> AuthError {
    match err {
        VerifyError::Expired => AuthError::Expired,
        _ => AuthError::InvalidToken,
    }
}

pub fn refuse(err: VerifyError) -> (r: AuthError)
    ensures
        r == refusal(err),
{
    match err {
        VerifyError::Expired => AuthError::Expired,
        _ => AuthError::InvalidToken,
    }
}

/// A request whose refresh token has verified and whose session waits for
/// the store's word.
#[derive(Debug, Clone)]
pub struct PendingRefresh {
    /// The identity that the refresh token proves.
    pub refresh: TokenDetails,
}

impl PendingRefresh {
    /// The command that fetches the record of the session.
    pub fn command(&self) -> (r: StoreCommand)
        ensures
            r@ == (StoreCommandView::Get { key: refresh_key(self.refresh.token_id) }),
    {
        crate::store::get(self.refresh.token_id)
    }
}

/// Where the guard stands after it has read the request.
#[derive(Debug, Clone)]
pub enum GateStep {
    /// The access token verified: the handler runs with this identity.
    Forward(TokenDetails),
    /// The refresh token verified: the store must be asked.
    Lookup(PendingRefresh),
    /// The request ends here.
    Reject(AuthError),
}

/// What a `GateStep` holds.
pub enum GateStepView {
    Forward(TokenDetailsView),
    Lookup(TokenDetailsView),
    Reject(AuthError),
}

impl View for GateStep {
    type V = GateStepView;

    open spec fn view(&self) -> GateStepView {
        match self {
            GateStep::Forward(identity) => GateStepView::Forward(identity@),
            GateStep::Lookup(pending) => GateStepView::Lookup(pending.refresh@),
            GateStep::Reject(err) => GateStepView::Reject(*err),
        }
    }
}

/// How the guard settles a request after the store has answered.
#[derive(Debug, Clone)]
pub enum GateOutcome {
    /// The handler runs with the identity of the new access token, and the
    /// response carries the stamp.
    Forward { identity: TokenDetails, stamp: Stamp },
    /// The request ends here.
    Reject(AuthError),
}

/// What a `GateOutcome` holds.
pub enum GateOutcomeView {
    Forward { identity: TokenDetailsView, stamp: StampView },
    Reject(AuthError),
}

impl View for GateOutcome {
    type V = GateOutcomeView;

    open spec fn view(&self) -> GateOutcomeView {
        match self {
            GateOutcome::Forward { identity, stamp } => GateOutcomeView::Forward {
                identity: identity@,
                stamp: stamp@,
            },
            GateOutcome::Reject(err) => GateOutcomeView::Reject(*err),
        }
    }
}

/// The guard of a deployment.
#[derive(Debug, Clone)]
pub struct AuthLayer {
    pub ctx: AuthContext,
}

impl AuthLayer {
    pub fn new(ctx: AuthContext) -> (r: Self)
        ensures
            r.ctx == ctx,
    {
        AuthLayer { ctx }
    }

    /// The refresh path at the time `now`: the refresh token comes from its
    /// cookie alone; without it the request lacks credentials, with one that
    /// fails verification the request is refused, and with one that
    /// verifies the store is asked.
    pub open spec fn refresh_path(&self, request: &RequestHeaders, now: i64) -> GateStepView {
        match request.cookie_value(REFRESH_COOKIE@) {
            None => GateStepView::Reject(AuthError::MissingCredentials),
            Some(token) => match self.ctx.refresh.verified(token, now) {
                Ok(identity) => GateStepView::Lookup(identity),
                Err(err) => GateStepView::Reject(refusal(err)),
            },
        }
    }

    /// Where the guard stands on a request at the time `now`: a malformed
    /// header is refused, a request without access credential lacks
    /// credentials, an access token that verifies is let through, and any
    /// other takes the refresh path.
    pub open spec fn first_step(&self, request: &RequestHeaders, now: i64) -> GateStepView {
        match request.credential(ACCESS_COOKIE@) {
            Err(err) => GateStepView::Reject(err),
            Ok(None) => GateStepView::Reject(AuthError::MissingCredentials),
            Ok(Some(token)) => match self.ctx.access.verified(token, now) {
                Ok(identity) => GateStepView::Forward(identity),
                Err(_) => self.refresh_path(request, now),
            },
        }
    }

    /// How the guard settles a pending request on the store's reply, with
    /// `token_id`, `now` and `seed` for the new access token: a failed store or an
    /// unreadable record is a store error; a missing record, or one of
    /// another user, means the session is revoked; else a new access token
    /// is minted for the user that the refresh token names.
    pub open spec fn second_step(
        &self,
        refresh: TokenDetailsView,
        reply: StoreReplyView,
        token_id: u128,
        now: i64,
        seed: u128,
    ) -> GateOutcomeView {
        match reply {
            StoreReplyView::Failed => GateOutcomeView::Reject(AuthError::StoreError),
            StoreReplyView::Unreadable => GateOutcomeView::Reject(AuthError::StoreError),
            StoreReplyView::Missing => GateOutcomeView::Reject(AuthError::InvalidToken),
            StoreReplyView::Found(record) => if record.user_pid != refresh.user_pid {
                GateOutcomeView::Reject(AuthError::InvalidToken)
            } else {
                match self.ctx.access.issued(refresh.user_pid, token_id, now, seed) {
                    Ok(details) => GateOutcomeView::Forward {
                        identity: TokenDetails::identity(details.token_id, details.user_pid),
                        stamp: access_stamp(details.token->0, self.ctx.access.exp),
                    },
                    Err(_) => GateOutcomeView::Reject(AuthError::TokenCreation),
                }
            },
        }
    }

    fn refresh_at(&self, request: &RequestHeaders, now: i64) -> (r: GateStep)
        ensures
            r@ == self.refresh_path(request, now),
    {
        match request.cookie(REFRESH_COOKIE) {
            None => GateStep::Reject(AuthError::MissingCredentials),
            Some(token) => match self.ctx.refresh.verify_token_at(token.as_str(), now) {
                Ok(identity) => GateStep::Lookup(PendingRefresh { refresh: identity }),
                Err(err) => GateStep::Reject(refuse(err)),
            },
        }
    }

    /// Reads a request at the time `now`.
    pub fn begin_at(&self, request: &RequestHeaders, now: i64) -> (r: GateStep)
        ensures
            r@ == self.first_step(request, now),
    {
        match request.extract(ACCESS_COOKIE) {
            Err(err) => GateStep::Reject(err),
            Ok(None) => GateStep::Reject(AuthError::MissingCredentials),
            Ok(Some(token)) => match self.ctx.access.verify_token_at(token.as_str(), now) {
                Ok(identity) => GateStep::Forward(identity),
                Err(_) => self.refresh_at(request, now),
            },
        }
    }

    /// Reads a request at the current time.
    pub fn begin(&self, request: &RequestHeaders) -> (r: GateStep)
        ensures
            exists|now: i64| r@ == #[trigger] self.first_step(request, now),
    {
        let now = unix_now();
        self.begin_at(request, now)
    }

    /// Settles a pending request on the store's reply, minting under the
    /// given id and time, with `seed` to blind the signing.
    pub fn resume_with(
        &self,
        pending: &PendingRefresh,
        reply: StoreReply,
        token_id: u128,
        now: i64,
        seed: u128,
    ) -> (r: GateOutcome)
        ensures
            r@ == self.second_step(pending.refresh@, reply@, token_id, now, seed),
    {
        match reply {
            StoreReply::Failed => GateOutcome::Reject(AuthError::StoreError),
            StoreReply::Unreadable => GateOutcome::Reject(AuthError::StoreError),
            StoreReply::Missing => GateOutcome::Reject(AuthError::InvalidToken),
            StoreReply::Found(record) => {
                if record.user_pid != pending.refresh.user_pid {
                    return GateOutcome::Reject(AuthError::InvalidToken);
                }
                match self.ctx.access.generate_token_with(pending.refresh.user_pid, token_id, now, seed) {
                    Ok(details) => match details.token {
                        Some(token) => GateOutcome::Forward {
                            identity: TokenDetails {
                                token: None,
                                token_id: details.token_id,
                                user_pid: details.user_pid,
                                expires_in: None,
                            },
                            stamp: stamp_access(token.as_str(), self.ctx.access.exp),
                        },
                        None => GateOutcome::Reject(AuthError::TokenCreation),
                    },
                    Err(_) => GateOutcome::Reject(AuthError::TokenCreation),
                }
            },
        }
    }

    /// Settles a pending request on the store's reply, minting under a
    /// fresh id at the current time.
    pub fn resume(&self, pending: &PendingRefresh, reply: StoreReply) -> (r: GateOutcome)
        ensures
            exists|token_id: u128, now: i64, seed: u128|
                r@ == #[trigger] self.second_step(pending.refresh@, reply@, token_id, now, seed),
    {
        let now = unix_now();
        let token_id = fresh_id();
        let seed = fresh_id();
        self.resume_with(pending, reply, token_id, now, seed)
    }
}

} // verus!
