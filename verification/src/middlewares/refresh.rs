//! The stage that runs before the guard on routes where a session must be
//! refreshed silently: a request that holds a good refresh cookie always
//! reaches the guard with a current access token, whether it brought one or
//! not.
//!
//! Like the guard, the stage never talks to the store itself: `begin` reads
//! the request and asks for the record of the refresh token, `resume` takes
//! the store's reply and settles the request.

use vstd::prelude::*;

use crate::clock::unix_now;
use crate::context::AuthContext;
use crate::ids::fresh_id;
use crate::middlewares::auth::{refusal, refuse};
use crate::middlewares::error::AuthError;
use crate::middlewares::extract::{RequestHeaders, ACCESS_COOKIE, REFRESH_COOKIE};
use crate::middlewares::stamp::{access_stamp, stamp_access, Stamp, StampView};
use crate::models::token::{text_view, TokenDetails, TokenDetailsView};
use crate::store::{refresh_key, StoreCommand, StoreCommandView, StoreReply, StoreReplyView};

verus! {

/// A request whose refresh token has verified and whose session waits for
/// the store's word.
#[derive(Debug, Clone)]
pub struct PendingStamp {
    /// The identity that the refresh token proves.
    pub refresh: TokenDetails,
    /// The access token that the request brought, if any.
    pub access: Option<String>,
}

/// What a `PendingStamp` holds.
pub struct PendingStampView {
    pub refresh: TokenDetailsView,
    pub access: Option<Seq<char>>,
}

impl View for PendingStamp {
    type V = PendingStampView;

    open spec fn view(&self) -> PendingStampView {
        PendingStampView { refresh: self.refresh@, access: text_view(self.access) }
    }
}

impl PendingStamp {
    /// The command that fetches the record of the session.
    pub fn command(&self) -> (r: StoreCommand)
        ensures
            r@ == (StoreCommandView::Get { key: refresh_key(self.refresh.token_id) }),
    {
        crate::store::get(self.refresh.token_id)
    }
}

/// Where the stage stands after it has read the request.
#[derive(Debug, Clone)]
pub enum RefreshStep {
    /// The refresh token verified: the store must be asked.
    Lookup(PendingStamp),
    /// The request ends here.
    Reject(AuthError),
}

/// What a `RefreshStep` holds.
pub enum RefreshStepView {
    Lookup(PendingStampView),
    Reject(AuthError),
}

impl View for RefreshStep {
    type V = RefreshStepView;

    open spec fn view(&self) -> RefreshStepView {
        match self {
            RefreshStep::Lookup(pending) => RefreshStepView::Lookup(pending@),
            RefreshStep::Reject(err) => RefreshStepView::Reject(*err),
        }
    }
}

/// How the stage settles a request after the store has answered.
#[derive(Debug, Clone)]
pub enum RefreshOutcome {
    /// The request goes on to the guard, carrying the stamp.
    Proceed(Stamp),
    /// The request ends here.
    Reject(AuthError),
}

/// What a `RefreshOutcome` holds.
pub enum RefreshOutcomeView {
    Proceed(StampView),
    Reject(AuthError),
}

impl View for RefreshOutcome {
    type V = RefreshOutcomeView;

    open spec fn view(&self) -> RefreshOutcomeView {
        match self {
            RefreshOutcome::Proceed(stamp) => RefreshOutcomeView::Proceed(stamp@),
            RefreshOutcome::Reject(err) => RefreshOutcomeView::Reject(*err),
        }
    }
}

/// The refresh stage of a deployment.
#[derive(Debug, Clone)]
pub struct RefreshLayer {
    pub ctx: AuthContext,
}

impl RefreshLayer {
    pub fn new(ctx: AuthContext) -> (r: Self)
        ensures
            r.ctx == ctx,
    {
        RefreshLayer { ctx }
    }

    /// Where the stage stands on a request at the time `now`: without a
    /// refresh cookie the request lacks credentials; a malformed
    /// `Authorization` header is refused; a refresh token that fails
    /// verification is refused; else the store is asked, and the access
    /// token that the request brought is kept for later.
    pub open spec fn first_step(&self, request: &RequestHeaders, now: i64) -> RefreshStepView {
        match request.cookie_value(REFRESH_COOKIE@) {
            None => RefreshStepView::Reject(AuthError::MissingCredentials),
            Some(token) => match request.credential(ACCESS_COOKIE@) {
                Err(err) => RefreshStepView::Reject(err),
                Ok(access) => match self.ctx.refresh.verified(token, now) {
                    Ok(identity) => RefreshStepView::Lookup(
                        PendingStampView { refresh: identity, access },
                    ),
                    Err(err) => RefreshStepView::Reject(refusal(err)),
                },
            },
        }
    }

    /// `true` when the request brought an access token that verifies at
    /// `now`.
    pub open spec fn keeps(&self, access: Option<Seq<char>>, now: i64) -> bool {
        access matches Some(token) && self.ctx.access.verified(token, now) is Ok
    }

    /// How the stage settles a pending request on the store's reply, with
    /// `token_id`, `now` and `seed` for a new access token: a failed store or an
    /// unreadable record is a store error and a missing record means the
    /// session is revoked; else an access token that verifies is kept as it
    /// is, and in place of any other a new one is minted for the user of the
    /// record. Either way the request goes on with a stamp.
    pub open spec fn second_step(
        &self,
        pending: PendingStampView,
        reply: StoreReplyView,
        token_id: u128,
        now: i64,
        seed: u128,
    ) -> RefreshOutcomeView {
        match reply {
            StoreReplyView::Failed => RefreshOutcomeView::Reject(AuthError::StoreError),
            StoreReplyView::Unreadable => RefreshOutcomeView::Reject(AuthError::StoreError),
            StoreReplyView::Missing => RefreshOutcomeView::Reject(AuthError::InvalidToken),
            StoreReplyView::Found(record) => if self.keeps(pending.access, now) {
                RefreshOutcomeView::Proceed(access_stamp(pending.access->0, self.ctx.access.exp))
            } else {
                match self.ctx.access.issued(record.user_pid, token_id, now, seed) {
                    Ok(details) => RefreshOutcomeView::Proceed(
                        access_stamp(details.token->0, self.ctx.access.exp),
                    ),
                    Err(_) => RefreshOutcomeView::Reject(AuthError::TokenCreation),
                }
            },
        }
    }

    /// Reads a request at the time `now`.
    pub fn begin_at(&self, request: &RequestHeaders, now: i64) -> (r: RefreshStep)
        ensures
            r@ == self.first_step(request, now),
    {
        let token = match request.cookie(REFRESH_COOKIE) {
            None => {
                return RefreshStep::Reject(AuthError::MissingCredentials);
            },
            Some(token) => token,
        };
        let access = match request.extract(ACCESS_COOKIE) {
            Err(err) => {
                return RefreshStep::Reject(err);
            },
            Ok(access) => access,
        };
        match self.ctx.refresh.verify_token_at(token.as_str(), now) {
            Ok(identity) => RefreshStep::Lookup(PendingStamp { refresh: identity, access }),
            Err(err) => RefreshStep::Reject(refuse(err)),
        }
    }

    /// Reads a request at the current time.
    pub fn begin(&self, request: &RequestHeaders) -> (r: RefreshStep)
        ensures
            exists|now: i64| r@ == #[trigger] self.first_step(request, now),
    {
        let now = unix_now();
        self.begin_at(request, now)
    }

    fn mint(&self, user_pid: u128, token_id: u128, now: i64, seed: u128) -> (r: RefreshOutcome)
        ensures
            r@ == match self.ctx.access.issued(user_pid, token_id, now, seed) {
                Ok(details) => RefreshOutcomeView::Proceed(
                    access_stamp(details.token->0, self.ctx.access.exp),
                ),
                Err(_) => RefreshOutcomeView::Reject(AuthError::TokenCreation),
            },
    {
        match self.ctx.access.generate_token_with(user_pid, token_id, now, seed) {
            Ok(details) => match details.token {
                Some(token) => RefreshOutcome::Proceed(
                    stamp_access(token.as_str(), self.ctx.access.exp),
                ),
                None => RefreshOutcome::Reject(AuthError::TokenCreation),
            },
            Err(_) => RefreshOutcome::Reject(AuthError::TokenCreation),
        }
    }

    /// Settles a pending request on the store's reply, minting under the
    /// given id and time, with `seed` to blind the signing, where a new
    /// access token is due.
    pub fn resume_with(
        &self,
        pending: &PendingStamp,
        reply: StoreReply,
        token_id: u128,
        now: i64,
        seed: u128,
    ) -> (r: RefreshOutcome)
        ensures
            r@ == self.second_step(pending@, reply@, token_id, now, seed),
    {
        match reply {
            StoreReply::Failed => RefreshOutcome::Reject(AuthError::StoreError),
            StoreReply::Unreadable => RefreshOutcome::Reject(AuthError::StoreError),
            StoreReply::Missing => RefreshOutcome::Reject(AuthError::InvalidToken),
            StoreReply::Found(record) => match &pending.access {
                Some(token) => match self.ctx.access.verify_token_at(token.as_str(), now) {
                    Ok(_) => RefreshOutcome::Proceed(
                        stamp_access(token.as_str(), self.ctx.access.exp),
                    ),
                    Err(_) => self.mint(record.user_pid, token_id, now, seed),
                },
                None => self.mint(record.user_pid, token_id, now, seed),
            },
        }
    }

    /// Settles a pending request on the store's reply, minting under a
    /// fresh id at the current time where a new access token is due.
    pub fn resume(&self, pending: &PendingStamp, reply: StoreReply) -> (r: RefreshOutcome)
        ensures
            exists|token_id: u128, now: i64, seed: u128|
                r@ == #[trigger] self.second_step(pending@, reply@, token_id, now, seed),
    {
        let now = unix_now();
        let token_id = fresh_id();
        let seed = fresh_id();
        self.resume_with(pending, reply, token_id, now, seed)
    }
}

} // verus!
