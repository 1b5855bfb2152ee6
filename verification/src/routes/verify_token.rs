//! Token introspection: is this session token still good?

use crate::domain::data_stores::BannedTokenStore;
use crate::domain::error::AuthAPIError;
use crate::utils::auth::{
    checked_claims, hs256_payload, is_clock_reading, unix_time_now, validate_token_at, Claims,
    TokenError,
};
use vstd::prelude::*;

verus! {

/// Status that reports a valid token.
pub const VERIFY_TOKEN_STATUS: u16 = 200;

/// What a client submits to have a token checked.
pub struct VerifyTokenRequest {
    pub token: String,
}

/// What an introspection at `now` owes, over the revoked tokens: status 200
/// for a token that was not revoked, is well formed and rightly signed, and
/// has not expired; `InvalidToken` for any other.
pub open spec fn verify_token_post(
    revoked: Set<Seq<char>>,
    token: Seq<char>,
    secret: Seq<char>,
    now: i64,
    r: Result<u16, AuthAPIError>,
) -> bool {
    if !revoked.contains(token) && checked_claims(hs256_payload(token, secret), now) is Ok {
        r == Ok::<u16, AuthAPIError>(VERIFY_TOKEN_STATUS)
    } else {
        r == Err::<u16, AuthAPIError>(AuthAPIError::InvalidToken)
    }
}

/// What an introspection at `now` owes, whatever the store: status 200 or
/// `InvalidToken`, and status 200 only for a token that is well formed,
/// rightly signed and not expired at `now`. With a store that keeps to its
/// model, the outcome is that of `verify_token_post` over it.
pub open spec fn post_verify_token_post<B: BannedTokenStore>(
    banned_token_store: &B,
    token: Seq<char>,
    secret: Seq<char>,
    now: i64,
    r: Result<u16, AuthAPIError>,
) -> bool {
    &&& r == Ok::<u16, AuthAPIError>(VERIFY_TOKEN_STATUS) || r == Err::<u16, AuthAPIError>(
        AuthAPIError::InvalidToken,
    )
    &&& r is Ok ==> checked_claims(hs256_payload(token, secret), now) is Ok
    &&& B::obeys_model() ==> verify_token_post(banned_token_store.tokens(), token, secret, now, r)
}

/// The reply to an introspection, given the outcome of validating the token:
/// status 200 for claims, `InvalidToken` for any failure.
pub fn verify_token_reply(validated: Result<Claims, TokenError>) -> (r: Result<u16, AuthAPIError>)
    ensures
        validated is Ok ==> r == Ok::<u16, AuthAPIError>(VERIFY_TOKEN_STATUS),
        validated is Err ==> r == Err::<u16, AuthAPIError>(AuthAPIError::InvalidToken),
{
    match validated {
        Ok(_) => Ok(VERIFY_TOKEN_STATUS),
        Err(_) => Err(AuthAPIError::InvalidToken),
    }
}

/// Checks a token at the time `now`. Nothing is changed.
pub fn post_verify_token_at<B: BannedTokenStore>(
    banned_token_store: &B,
    jwt_secret: &str,
    request: VerifyTokenRequest,
    now: i64,
) -> (r: Result<u16, AuthAPIError>)
    ensures
        post_verify_token_post(banned_token_store, request.token@, jwt_secret@, now, r),
{
    verify_token_reply(
        validate_token_at(request.token.as_str(), banned_token_store, jwt_secret, now),
    )
}

/// Checks a token now. Nothing is changed.
pub fn post_verify_token<B: BannedTokenStore>(
    banned_token_store: &B,
    jwt_secret: &str,
    request: VerifyTokenRequest,
) -> (r: Result<u16, AuthAPIError>)
    ensures
        exists|now: i64|
            is_clock_reading(now) && #[trigger] post_verify_token_post(
                banned_token_store,
                request.token@,
                jwt_secret@,
                now,
                r,
            ),
{
    let now = unix_time_now();
    post_verify_token_at(banned_token_store, jwt_secret, request, now)
}

} // verus!
