//! Opening and closing a session. The handlers look users up and send the
//! store its commands; what a login issues and what a logout clears is
//! decided here.

use vstd::prelude::*;

use crate::clock::unix_now;
use crate::context::AuthContext;
use crate::error::Error;
use crate::ids::fresh_id;
use crate::middlewares::auth::{refusal, refuse};
use crate::middlewares::error::AuthError;
use crate::middlewares::extract::{RequestHeaders, ACCESS_COOKIE, REFRESH_COOKIE};
use crate::middlewares::stamp::{lax_cookie_text, render_lax_cookie};
use crate::models::token::{TokenDetails, TokenDetailsView};
use crate::models::users::{LoginUser, User};
use crate::store::{put_command, refresh_key, StoreCommand, StoreCommandView};

verus! {

/// What a login issues: the two tokens, the command that records the
/// refresh token, and the header values of the response.
#[derive(Debug, Clone)]
pub struct Session {
    pub access: TokenDetails,
    pub refresh: TokenDetails,
    pub store: StoreCommand,
    pub authorization: String,
    pub access_cookie: String,
    pub refresh_cookie: String,
}

/// What a `Session` holds.
pub struct SessionView {
    pub access: TokenDetailsView,
    pub refresh: TokenDetailsView,
    pub store: StoreCommandView,
    pub authorization: Seq<char>,
    pub access_cookie: Seq<char>,
    pub refresh_cookie: Seq<char>,
}

impl View for Session {
    type V = SessionView;

    open spec fn view(&self) -> SessionView {
        SessionView {
            access: self.access@,
            refresh: self.refresh@,
            store: self.store@,
            authorization: self.authorization@,
            access_cookie: self.access_cookie@,
            refresh_cookie: self.refresh_cookie@,
        }
    }
}

/// What a login result holds.
pub open spec fn session_view(result: Result<Session, Error>) -> Result<SessionView, Error> {
    match result {
        Ok(session) => Ok(session@),
        Err(err) => Err(err),
    }
}

/// The session of two issued tokens and the command that records the
/// refresh token. The access cookie may be read by scripts, the refresh
/// cookie may not.
pub open spec fn session_of(
    ctx: &AuthContext,
    access: TokenDetailsView,
    refresh: TokenDetailsView,
    store: StoreCommandView,
) -> SessionView {
    SessionView {
        access,
        refresh,
        store,
        authorization: access.token->0,
        access_cookie: lax_cookie_text(ACCESS_COOKIE@, access.token->0, "/"@, ctx.access.exp, false),
        refresh_cookie: lax_cookie_text(
            REFRESH_COOKIE@,
            refresh.token->0,
            "/"@,
            ctx.refresh.exp,
            true,
        ),
    }
}

/// What a login gives at the time `now`, with the ids and the seeds for
/// the two tokens:
/// `WrongCredentials` without a user of that email, the failure of the
/// password check where there is one, the failure of either issuance,
/// `TokenError` where the refresh token would be recorded with no time
/// left, and else the session of an access and a refresh token for the
/// user, the refresh token recorded at `now`.
pub open spec fn login_result(
    ctx: &AuthContext,
    user: Option<User>,
    password: Seq<char>,
    access_id: u128,
    refresh_id: u128,
    now: i64,
    access_seed: u128,
    refresh_seed: u128,
) -> Result<SessionView, Error> {
    match user {
        None => Err(Error::Auth(AuthError::WrongCredentials)),
        Some(user) => match user.password_verdict(password) {
            Err(err) => Err(err),
            Ok(()) => match ctx.access.issued(user.pid, access_id, now, access_seed) {
                Err(err) => Err(err),
                Ok(access) => match ctx.refresh.issued(user.pid, refresh_id, now, refresh_seed) {
                    Err(err) => Err(err),
                    Ok(refresh) => match put_command(refresh, now) {
                        Err(err) => Err(err),
                        Ok(store) => Ok(session_of(ctx, access, refresh, store)),
                    },
                },
            },
        },
    }
}

/// Logs a user in at the time `now`, with the given ids for the two tokens
/// and the seeds that blind their signing.
/// `user` is the user that holds the email of the request, if there is one.
pub fn login_with(
    ctx: &AuthContext,
    user: Option<User>,
    params: &LoginUser,
    access_id: u128,
    refresh_id: u128,
    now: i64,
    access_seed: u128,
    refresh_seed: u128,
) -> (r: Result<Session, Error>)
    ensures
        session_view(r) == login_result(
            ctx,
            user,
            params.password@,
            access_id,
            refresh_id,
            now,
            access_seed,
            refresh_seed,
        ),
{
    let user = match user {
        None => {
            return Err(Error::Auth(AuthError::WrongCredentials));
        },
        Some(user) => user,
    };
    match user.verify_password(params.password()) {
        Err(err) => {
            return Err(err);
        },
        Ok(()) => {},
    }
    let access = match ctx.access.generate_token_with(user.pid(), access_id, now, access_seed) {
        Err(err) => {
            return Err(err);
        },
        Ok(details) => details,
    };
    let refresh = match ctx.refresh.generate_token_with(user.pid(), refresh_id, now, refresh_seed) {
        Err(err) => {
            return Err(err);
        },
        Ok(details) => details,
    };
    let (access_token, refresh_token) = match (&access.token, &refresh.token) {
        (Some(access_token), Some(refresh_token)) => (access_token.clone(), refresh_token.clone()),
        _ => {
            return Err(Error::TokenError);
        },
    };
    let store = match crate::store::put(refresh.duplicate(), now) {
        Err(err) => {
            return Err(err);
        },
        Ok(store) => store,
    };
    let access_cookie = render_lax_cookie(
        ACCESS_COOKIE,
        access_token.as_str(),
        "/",
        ctx.access.exp,
        false,
    );
    let refresh_cookie = render_lax_cookie(
        REFRESH_COOKIE,
        refresh_token.as_str(),
        "/",
        ctx.refresh.exp,
        true,
    );
    Ok(Session { access, refresh, store, authorization: access_token, access_cookie, refresh_cookie })
}

/// Logs a user in at the current time, with fresh ids for the two tokens.
pub fn login(ctx: &AuthContext, user: Option<User>, params: &LoginUser) -> (r: Result<
    Session,
    Error,
>)
    ensures
        exists|access_id: u128, refresh_id: u128, now: i64, access_seed: u128, refresh_seed: u128|
            session_view(r) == #[trigger] login_result(
                ctx,
                user,
                params.password@,
                access_id,
                refresh_id,
                now,
                access_seed,
                refresh_seed,
            ),
{
    let now = unix_now();
    let access_id = fresh_id();
    let refresh_id = fresh_id();
    let access_seed = fresh_id();
    let refresh_seed = fresh_id();
    login_with(ctx, user, params, access_id, refresh_id, now, access_seed, refresh_seed)
}

/// What a logout does: the command that removes the session's record, and
/// the two cookies that empty the browser's.
#[derive(Debug, Clone)]
pub struct Logout {
    pub store: StoreCommand,
    pub access_cookie: String,
    pub refresh_cookie: String,
}

/// What a `Logout` holds.
pub struct LogoutView {
    pub store: StoreCommandView,
    pub access_cookie: Seq<char>,
    pub refresh_cookie: Seq<char>,
}

impl View for Logout {
    type V = LogoutView;

    open spec fn view(&self) -> LogoutView {
        LogoutView {
            store: self.store@,
            access_cookie: self.access_cookie@,
            refresh_cookie: self.refresh_cookie@,
        }
    }
}

/// What a logout result holds.
pub open spec fn logout_view(result: Result<Logout, AuthError>) -> Result<LogoutView, AuthError> {
    match result {
        Ok(logout) => Ok(logout@),
        Err(err) => Err(err),
    }
}

/// What a logout gives at the time `now`. The session to end is the one
/// of the request's refresh cookie: without the cookie the request lacks
/// credentials, and a refresh token that fails verification is refused.
/// Else the record under the id of the refresh token is deleted, whatever
/// access token the request holds, and both cookies are emptied.
pub open spec fn logout_result(ctx: &AuthContext, request: &RequestHeaders, now: i64) -> Result<
    LogoutView,
    AuthError,
> {
    match request.cookie_value(REFRESH_COOKIE@) {
        None => Err(AuthError::MissingCredentials),
        Some(token) => match ctx.refresh.verified(token, now) {
            Err(err) => Err(refusal(err)),
            Ok(refresh) => Ok(
                LogoutView {
                    store: StoreCommandView::Delete { key: refresh_key(refresh.token_id) },
                    access_cookie: lax_cookie_text(
                        ACCESS_COOKIE@,
                        Seq::empty(),
                        "/"@,
                        ctx.access.exp,
                        false,
                    ),
                    refresh_cookie: lax_cookie_text(
                        REFRESH_COOKIE@,
                        Seq::empty(),
                        "/"@,
                        ctx.refresh.exp,
                        true,
                    ),
                },
            ),
        },
    }
}

/// Logs out the session of the request's refresh token at the time `now`.
pub fn logout_at(ctx: &AuthContext, request: &RequestHeaders, now: i64) -> (r: Result<
    Logout,
    AuthError,
>)
    ensures
        logout_view(r) == logout_result(ctx, request, now),
{
    proof {
        reveal_strlit("");
    }
    let token = match request.cookie(REFRESH_COOKIE) {
        None => {
            return Err(AuthError::MissingCredentials);
        },
        Some(token) => token,
    };
    let refresh = match ctx.refresh.verify_token_at(token.as_str(), now) {
        Err(err) => {
            return Err(refuse(err));
        },
        Ok(refresh) => refresh,
    };
    Ok(
        Logout {
            store: crate::store::delete(refresh.token_id),
            access_cookie: render_lax_cookie(ACCESS_COOKIE, "", "/", ctx.access.exp, false),
            refresh_cookie: render_lax_cookie(REFRESH_COOKIE, "", "/", ctx.refresh.exp, true),
        },
    )
}

/// Logs out the session of the request's refresh token at the current
/// time.
pub fn logout(ctx: &AuthContext, request: &RequestHeaders) -> (r: Result<Logout, AuthError>)
    ensures
        exists|now: i64| logout_view(r) == #[trigger] logout_result(ctx, request, now),
{
    let now = unix_now();
    logout_at(ctx, request, now)
}

} // verus!
