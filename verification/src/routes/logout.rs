//! Logout: revoke the presented session token.

use crate::domain::data_stores::{BannedTokenStore, BannedTokenStoreError};
use crate::domain::error::AuthAPIError;
use crate::utils::auth::{
    checked_claims, hs256_payload, is_clock_reading, unix_time_now, validate_token_at, Claims,
    TokenError,
};
use crate::utils::constants::JWT_COOKIE_NAME;
use vstd::prelude::*;

verus! {

/// Status of a logout that revoked the token.
pub const LOGOUT_STATUS: u16 = 200;

/// What a logout hands back on success: the status, and the name of the
/// cookie for the caller to clear.
pub type LogoutReply = (u16, &'static str);

/// Whether `r` is the failure `error`.
pub open spec fn is_logout_failure(r: Result<LogoutReply, AuthAPIError>, error: AuthAPIError) -> bool {
    r matches Err(e) && e == error
}

/// Whether `r` confirms a logout: status 200, and the session cookie to
/// clear.
pub open spec fn is_logout_confirmation(r: Result<LogoutReply, AuthAPIError>) -> bool {
    &&& r matches Ok(reply)
    &&& reply.0 == LOGOUT_STATUS
    &&& reply.1@ == JWT_COOKIE_NAME@
}

/// The text of a token that came with the request, if one did.
pub open spec fn token_view(token: Option<&str>) -> Option<Seq<char>> {
    match token {
        Some(text) => Some(text@),
        None => None,
    }
}

/// What a logout at `now` owes, over the tokens revoked before and after. A
/// request without a token is refused as missing one; a token that was
/// revoked already as already invalidated; one that is malformed, wrongly
/// signed or expired as invalid; in each case nothing changes. Any other
/// token is revoked, and the reply is status 200 with the session cookie to
/// clear.
pub open spec fn logout_post(
    before: Set<Seq<char>>,
    token: Option<Seq<char>>,
    secret: Seq<char>,
    now: i64,
    after: Set<Seq<char>>,
    r: Result<LogoutReply, AuthAPIError>,
) -> bool {
    match token {
        None => is_logout_failure(r, AuthAPIError::MissingToken) && after == before,
        Some(text) => {
            if before.contains(text) {
                is_logout_failure(r, AuthAPIError::TokenAlreadyInvalidated) && after == before
            } else if checked_claims(hs256_payload(text, secret), now) is Err {
                is_logout_failure(r, AuthAPIError::InvalidToken) && after == before
            } else {
                is_logout_confirmation(r) && after == before.insert(text)
            }
        },
    }
}

/// What a logout at `now` owes, whatever the store. A request without a
/// token is refused as missing one, and the store is left as it was; no
/// request with a token is. No other failures come out than a missing
/// token, an invalid token and a token already invalidated. A success
/// confirms the logout, of a token that is well formed, rightly signed and
/// not expired at `now`. With a store that keeps to its model, the outcome
/// is that of `logout_post` over it.
pub open spec fn post_logout_post<B: BannedTokenStore>(
    before: B,
    token: Option<Seq<char>>,
    secret: Seq<char>,
    now: i64,
    after: B,
    r: Result<LogoutReply, AuthAPIError>,
) -> bool {
    &&& token is None ==> {
        &&& is_logout_failure(r, AuthAPIError::MissingToken)
        &&& after == before
    }
    &&& token is Some ==> !is_logout_failure(r, AuthAPIError::MissingToken)
    &&& r is Ok ==> {
        &&& is_logout_confirmation(r)
        &&& token matches Some(text)
        &&& checked_claims(hs256_payload(text, secret), now) is Ok
    }
    &&& r matches Err(e) ==> e == AuthAPIError::MissingToken || e == AuthAPIError::InvalidToken
        || e == AuthAPIError::TokenAlreadyInvalidated
    &&& B::obeys_model() ==> logout_post(before.tokens(), token, secret, now, after.tokens(), r)
}

/// How a logout reports a token that did not validate: one that was revoked
/// as already invalidated, any other as invalid.
pub fn logout_failure(error: TokenError) -> (e: AuthAPIError)
    ensures
        error == TokenError::Revoked ==> e == AuthAPIError::TokenAlreadyInvalidated,
        error != TokenError::Revoked ==> e == AuthAPIError::InvalidToken,
{
    match error {
        TokenError::Revoked => AuthAPIError::TokenAlreadyInvalidated,
        _ => AuthAPIError::InvalidToken,
    }
}

/// The reply to a logout with a valid token, given what the banned-token
/// store answered: confirmation where the token was added, and
/// `TokenAlreadyInvalidated` for any failure.
pub fn revoked_reply(added: Result<(), BannedTokenStoreError>) -> (r: Result<
    LogoutReply,
    AuthAPIError,
>)
    ensures
        added is Ok ==> is_logout_confirmation(r),
        added is Err ==> is_logout_failure(r, AuthAPIError::TokenAlreadyInvalidated),
{
    match added {
        Ok(()) => Ok((LOGOUT_STATUS, JWT_COOKIE_NAME)),
        Err(_) => Err(AuthAPIError::TokenAlreadyInvalidated),
    }
}

/// Logs out at the time `now`: requires a token, validates it, and revokes
/// it.
pub fn post_logout_at<B: BannedTokenStore>(
    banned_token_store: &mut B,
    jwt_secret: &str,
    token: Option<&str>,
    now: i64,
) -> (r: Result<LogoutReply, AuthAPIError>)
    ensures
        post_logout_post(
            *old(banned_token_store),
            token_view(token),
            jwt_secret@,
            now,
            *final(banned_token_store),
            r,
        ),
{
    let token = match token {
        Some(token) => token,
        None => {
            return Err(AuthAPIError::MissingToken);
        },
    };
    let validated: Result<Claims, TokenError> = validate_token_at(
        token,
        banned_token_store,
        jwt_secret,
        now,
    );
    match validated {
        Ok(_) => {},
        Err(error) => {
            return Err(logout_failure(error));
        },
    }
    let added = banned_token_store.add_token(token.to_owned());
    revoked_reply(added)
}

/// Logs out now.
pub fn post_logout<B: BannedTokenStore>(
    banned_token_store: &mut B,
    jwt_secret: &str,
    token: Option<&str>,
) -> (r: Result<LogoutReply, AuthAPIError>)
    ensures
        exists|now: i64|
            is_clock_reading(now) && #[trigger] post_logout_post(
                *old(banned_token_store),
                token_view(token),
                jwt_secret@,
                now,
                *final(banned_token_store),
                r,
            ),
{
    let now = unix_time_now();
    post_logout_at(banned_token_store, jwt_secret, token, now)
}

} // verus!
