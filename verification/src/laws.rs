//! What holds of the token rules and of the two request stages, whatever
//! the keys, the tokens and the clock.

use vstd::prelude::*;

use crate::controllers::auth::logout_result;
use crate::error::Error;
use crate::jwt::{
    claim_fields, claims_of, claims_verdict, lemma_claims_round_trip, verdict, ClaimView,
    DecodeFault, VerifyError,
};
use crate::middlewares::auth::{AuthLayer, GateOutcomeView, GateStepView};
use crate::middlewares::error::AuthError;
use crate::middlewares::extract::{RequestHeaders, ACCESS_COOKIE, REFRESH_COOKIE};
use crate::middlewares::stamp::access_stamp;
use crate::middlewares::refresh::{PendingStampView, RefreshLayer, RefreshOutcomeView, RefreshStepView};
use crate::models::token::{TokenClaimsView, TokenDetailsView};
use crate::store::{record_ttl, refresh_key, StoreCommandView, StoreReplyView};

verus! {

/// A token whose signature holds and whose claims can be read is expired
/// at every time after its `exp`, whatever else the claims say.
pub proof fn lemma_past_expiry_is_expired(fields: Seq<ClaimView>, now: i64)
    requires
        claims_of(fields) matches Some(claims) && claims.exp < now,
    ensures
        verdict(Ok(fields), now) == Err::<TokenDetailsView, VerifyError>(VerifyError::Expired),
{
}

/// A token whose signature does not hold is refused for its signature at
/// every time: it is never accepted and never called expired.
pub proof fn lemma_bad_signature_is_never_expired(now: i64)
    ensures
        verdict(Err(DecodeFault::Signature), now) == Err::<TokenDetailsView, VerifyError>(
            VerifyError::SignatureInvalid,
        ),
{
}

/// A token that the decoder faults never verifies, whatever the fault and
/// the time. So a token that does not decode under the key of a class, as
/// one signed under the other class's key, is never accepted by that class.
pub proof fn lemma_undecoded_token_never_verifies(fault: DecodeFault, now: i64)
    ensures
        verdict(Err(fault), now) is Err,
        verdict(Err(fault), now) != Err::<TokenDetailsView, VerifyError>(VerifyError::Expired),
{
}

/// Whether a token is accepted depends on the time alone once it is
/// decoded: accepted claims are accepted at every time from `nbf` to `exp`
/// and at no other.
pub proof fn lemma_validity_is_an_interval(claims: TokenClaimsView, at: i64, other: i64)
    requires
        claims_verdict(claims, at) is Ok,
    ensures
        claims.nbf <= at <= claims.exp,
        claims.nbf <= other <= claims.exp ==> claims_verdict(claims, other) == claims_verdict(
            claims,
            at,
        ),
        other < claims.nbf || other > claims.exp ==> claims_verdict(claims, other) is Err,
{
}

/// The members written for a token's claims are judged as the claims are.
pub proof fn lemma_written_claims_are_judged_as_claims(claims: TokenClaimsView, now: i64)
    ensures
        verdict(Ok(claim_fields(claims)), now) == claims_verdict(claims, now),
{
    lemma_claims_round_trip(claims);
}

/// A request without an `Authorization` header and without cookies is
/// turned away by the guard for its missing credentials, before any token
/// is verified and before the store is asked.
pub proof fn lemma_guard_empty_request(layer: AuthLayer, request: RequestHeaders, now: i64)
    requires
        request.authorization@.len() == 0,
        request.cookie@.len() == 0,
    ensures
        layer.first_step(&request, now) == GateStepView::Reject(AuthError::MissingCredentials),
{
}

/// A request without cookies is turned away by the refresh stage for its
/// missing credentials, whatever its `Authorization` header, before any
/// token is verified and before the store is asked.
pub proof fn lemma_refresh_stage_needs_a_cookie(
    layer: RefreshLayer,
    request: RequestHeaders,
    now: i64,
)
    requires
        request.cookie@.len() == 0,
    ensures
        layer.first_step(&request, now) == RefreshStepView::Reject(AuthError::MissingCredentials),
{
}

/// The guard lets a request through at once only with the identity that
/// its access credential verifies to, and asks the store only for a refresh
/// cookie that verifies under the refresh key.
pub proof fn lemma_guard_trusts_verified_tokens_only(
    layer: AuthLayer,
    request: RequestHeaders,
    now: i64,
)
    ensures
        layer.first_step(&request, now) matches GateStepView::Forward(identity) ==> (
        request.credential(ACCESS_COOKIE@) matches Ok(Some(token)) && layer.ctx.access.verified(
            token,
            now,
        ) == Ok::<TokenDetailsView, VerifyError>(identity)),
        layer.first_step(&request, now) matches GateStepView::Lookup(identity) ==> (
        request.cookie_value(REFRESH_COOKIE@) matches Some(token) && layer.ctx.refresh.verified(
            token,
            now,
        ) == Ok::<TokenDetailsView, VerifyError>(identity)),
{
}

/// The refresh stage asks the store only for a refresh cookie that verifies
/// under the refresh key.
pub proof fn lemma_refresh_stage_trusts_verified_tokens_only(
    layer: RefreshLayer,
    request: RequestHeaders,
    now: i64,
)
    ensures
        layer.first_step(&request, now) matches RefreshStepView::Lookup(pending) ==> (
        request.cookie_value(REFRESH_COOKIE@) matches Some(token) && layer.ctx.refresh.verified(
            token,
            now,
        ) == Ok::<TokenDetailsView, VerifyError>(pending.refresh)),
{
}

/// A session whose record is gone from the store is revoked: both stages
/// refuse it with status 401, whatever the refresh token and the time.
pub proof fn lemma_missing_record_revokes(
    guard: AuthLayer,
    stage: RefreshLayer,
    refresh: TokenDetailsView,
    pending: PendingStampView,
    token_id: u128,
    now: i64,
    seed: u128,
)
    ensures
        guard.second_step(refresh, StoreReplyView::Missing, token_id, now, seed)
            == GateOutcomeView::Reject(AuthError::InvalidToken),
        stage.second_step(pending, StoreReplyView::Missing, token_id, now, seed)
            == RefreshOutcomeView::Reject(AuthError::InvalidToken),
        AuthError::InvalidToken.status() == 401,
{
}

/// The guard hands out a new access token only on a record of the user
/// that the refresh token names, and the identity it forwards is that user
/// under the id of the new token.
pub proof fn lemma_guard_mints_for_the_session_user(
    guard: AuthLayer,
    refresh: TokenDetailsView,
    reply: StoreReplyView,
    token_id: u128,
    now: i64,
    seed: u128,
)
    ensures
        guard.second_step(refresh, reply, token_id, now, seed) matches GateOutcomeView::Forward {
            identity,
            stamp,
        } ==> (reply matches StoreReplyView::Found(record) && record.user_pid == refresh.user_pid
            && identity.user_pid == refresh.user_pid && identity.token_id == token_id
            && guard.ctx.access.issued(refresh.user_pid, token_id, now, seed) is Ok),
{
}

/// A request that the refresh stage lets go on carries either the access
/// token it brought, which then verifies, or one newly issued to the user
/// of the record.
pub proof fn lemma_refresh_stage_stamps_a_current_token(
    stage: RefreshLayer,
    pending: PendingStampView,
    reply: StoreReplyView,
    token_id: u128,
    now: i64,
    seed: u128,
)
    ensures
        stage.second_step(pending, reply, token_id, now, seed) is Proceed ==> (reply matches StoreReplyView::Found(
            record,
        ) && (stage.keeps(pending.access, now) || stage.ctx.access.issued(
            record.user_pid,
            token_id,
            now,
            seed,
        ) is Ok)),
{
}

/// A request whose access token no longer verifies, but whose refresh
/// cookie does and whose record is found for the same user, passes the
/// guard wherever a new access token can be signed: the handler runs for
/// the user of the refresh token, and the response carries one stamp, that
/// of the new token.
pub proof fn lemma_guard_refreshes_a_stale_access_token(
    guard: AuthLayer,
    request: RequestHeaders,
    record: TokenDetailsView,
    token_id: u128,
    now: i64,
    seed: u128,
)
    requires
        request.credential(ACCESS_COOKIE@) matches Ok(Some(token)) && guard.ctx.access.verified(
            token,
            now,
        ) is Err,
        ({
            &&& request.cookie_value(REFRESH_COOKIE@) matches Some(token)
            &&& guard.ctx.refresh.verified(token, now) matches Ok(refresh)
            &&& refresh.user_pid == record.user_pid
            &&& guard.ctx.access.issued(refresh.user_pid, token_id, now, seed) is Ok
        }),
    ensures
        ({
            &&& guard.first_step(&request, now) matches GateStepView::Lookup(refresh)
            &&& guard.second_step(refresh, StoreReplyView::Found(record), token_id, now, seed) matches GateOutcomeView::Forward {
                identity,
                stamp,
            }
            &&& identity.user_pid == record.user_pid
            &&& identity.token_id == token_id
            &&& guard.ctx.access.issued(record.user_pid, token_id, now, seed) matches Ok(details)
            &&& stamp == access_stamp(details.token->0, guard.ctx.access.exp)
        }),
{
}

/// A request that brings a verifying refresh cookie and nothing else
/// passes the refresh stage wherever a new access token can be signed: the
/// store is asked, and on a record found the request goes on with the
/// stamp of an access token newly issued to the user of the record.
pub proof fn lemma_refresh_cookie_alone_is_stamped(
    stage: RefreshLayer,
    request: RequestHeaders,
    record: TokenDetailsView,
    token_id: u128,
    now: i64,
    seed: u128,
)
    requires
        request.authorization@.len() == 0,
        request.cookie_value(ACCESS_COOKIE@) is None,
        request.cookie_value(REFRESH_COOKIE@) matches Some(token) && stage.ctx.refresh.verified(
            token,
            now,
        ) is Ok,
        stage.ctx.access.issued(record.user_pid, token_id, now, seed) is Ok,
    ensures
        ({
            &&& stage.first_step(&request, now) matches RefreshStepView::Lookup(pending)
            &&& pending.access is None
            &&& stage.ctx.access.issued(record.user_pid, token_id, now, seed) matches Ok(details)
            &&& details.user_pid == record.user_pid
            &&& stage.second_step(pending, StoreReplyView::Found(record), token_id, now, seed)
                == RefreshOutcomeView::Proceed(
                access_stamp(details.token->0, stage.ctx.access.exp),
            )
        }),
{
}

/// A logout ends the session that the guard would look up: where the guard
/// asks the store for the record of a request's refresh token, a logout of
/// that request at that time deletes the record under the same key. The
/// access token of the request has no say in it.
pub proof fn lemma_logout_deletes_what_the_guard_looks_up(
    guard: AuthLayer,
    request: RequestHeaders,
    now: i64,
)
    ensures
        guard.first_step(&request, now) matches GateStepView::Lookup(refresh) ==> (logout_result(
            &guard.ctx,
            &request,
            now,
        ) matches Ok(out) && out.store == (StoreCommandView::Delete {
            key: refresh_key(refresh.token_id),
        })),
        logout_result(&guard.ctx, &request, now) matches Ok(out) ==> (request.cookie_value(
            REFRESH_COOKIE@,
        ) matches Some(token) && guard.ctx.refresh.verified(token, now) matches Ok(refresh)
            && out.store == (StoreCommandView::Delete { key: refresh_key(refresh.token_id) })),
{
}

/// A record that is written before its expiry lives for exactly the
/// seconds that are left. One whose expiry is reached is never written, so
/// nothing in the store outlives its token.
pub proof fn lemma_lifetime_is_time_left(expires_in: i64, now: i64)
    ensures
        now < expires_in ==> record_ttl(Some(expires_in), now) == Ok::<Option<u64>, Error>(
            Some((expires_in - now) as u64),
        ) && 0 < expires_in - now <= u64::MAX,
        expires_in <= now ==> record_ttl(Some(expires_in), now) is Err,
{
}

/// Every rejection is a response with status 400, 401 or 500, and only
/// missing credentials give 400.
pub proof fn lemma_rejection_statuses(err: AuthError)
    ensures
        err.status() == 400 || err.status() == 401 || err.status() == 500,
        err.status() == 400 <==> err == AuthError::MissingCredentials,
{
}

} // verus!
