//! What holds of the workflows in sequence, stated over the contracts of the
//! single workflows and proved from them.

use crate::domain::data_stores::ChallengeView;
use crate::domain::error::AuthAPIError;
use crate::domain::password::is_acceptable_password;
use crate::domain::user::UserView;
use crate::routes::login::{
    is_session_reply, is_two_factor_reply, login_post, Delivery, LoginReply,
};
use crate::routes::logout::{is_logout_failure, logout_post, LogoutReply};
use crate::routes::signup::{is_signup_failure, signup_post, SignupResponse};
use crate::routes::verify_2fa::{is_verify_2fa_failure, verify_2fa_post, Verify2FAReply};
use crate::routes::verify_token::verify_token_post;
use crate::utils::auth::{token_expiry, validation_post, Claims, TokenError};
use vstd::prelude::*;

verus! {

/// After a signup without a second factor, a login with the same email and
/// password opens a session, with a token that is not empty, and leaves the
/// pending challenges alone; at any time for which a token's expiry time can
/// be had.
pub proof fn lemma_login_after_signup(
    users_before: Map<Seq<char>, UserView>,
    email: Seq<char>,
    password: Seq<char>,
    users_after: Map<Seq<char>, UserView>,
    signed_up: Result<(u16, SignupResponse), AuthAPIError>,
    codes_before: Map<Seq<char>, ChallengeView>,
    delivery: Delivery,
    secret: Seq<char>,
    now: i64,
    codes_after: Map<Seq<char>, ChallengeView>,
    logged_in: Result<LoginReply, AuthAPIError>,
)
    requires
        signup_post(users_before, email, password, false, users_after, signed_up),
        signed_up is Ok,
        login_post(
            users_after,
            codes_before,
            delivery,
            email,
            password,
            secret,
            now,
            codes_after,
            logged_in,
        ),
        token_expiry(now) is Some,
    ensures
        is_session_reply(logged_in, email, secret, now),
        logged_in->Ok_0.1->Some_0.value@.len() > 0,
        codes_after == codes_before,
{
}

/// After a signup, a second signup with the same email is refused with
/// `UserAlreadyExists`, whatever acceptable password and flag it carries, and
/// the stored user stays as it was.
pub proof fn lemma_second_signup_is_refused(
    users_before: Map<Seq<char>, UserView>,
    email: Seq<char>,
    first_password: Seq<char>,
    first_flag: bool,
    users_between: Map<Seq<char>, UserView>,
    first: Result<(u16, SignupResponse), AuthAPIError>,
    second_password: Seq<char>,
    second_flag: bool,
    users_after: Map<Seq<char>, UserView>,
    second: Result<(u16, SignupResponse), AuthAPIError>,
)
    requires
        signup_post(users_before, email, first_password, first_flag, users_between, first),
        first is Ok,
        is_acceptable_password(second_password),
        signup_post(users_between, email, second_password, second_flag, users_after, second),
    ensures
        is_signup_failure(second, AuthAPIError::UserAlreadyExists),
        users_after == users_between,
{
}

/// A challenge is redeemed once: after a verification that succeeded, a
/// second one with the same email, login attempt and code is refused with
/// `IncorrectCredentials`.
pub proof fn lemma_challenge_is_redeemed_once(
    codes_before: Map<Seq<char>, ChallengeView>,
    email: Seq<char>,
    login_attempt_id: Seq<char>,
    code: Seq<char>,
    secret: Seq<char>,
    first_time: i64,
    codes_between: Map<Seq<char>, ChallengeView>,
    first: Result<Verify2FAReply, AuthAPIError>,
    second_time: i64,
    codes_after: Map<Seq<char>, ChallengeView>,
    second: Result<Verify2FAReply, AuthAPIError>,
)
    requires
        verify_2fa_post(
            codes_before,
            email,
            login_attempt_id,
            code,
            secret,
            first_time,
            codes_between,
            first,
        ),
        first is Ok,
        verify_2fa_post(
            codes_between,
            email,
            login_attempt_id,
            code,
            secret,
            second_time,
            codes_after,
            second,
        ),
    ensures
        is_verify_2fa_failure(second, AuthAPIError::IncorrectCredentials),
        codes_after == codes_between,
{
}

/// A new login supersedes the challenge of an earlier one: where two logins
/// for the same email each asked for a second factor, and the second drew a
/// challenge other than the first, answering with the first login's attempt
/// identifier and code is refused with `IncorrectCredentials`.
pub proof fn lemma_new_login_supersedes_challenge(
    users: Map<Seq<char>, UserView>,
    delivery: Delivery,
    email: Seq<char>,
    password: Seq<char>,
    secret: Seq<char>,
    codes_before: Map<Seq<char>, ChallengeView>,
    first_time: i64,
    codes_first: Map<Seq<char>, ChallengeView>,
    first: Result<LoginReply, AuthAPIError>,
    second_time: i64,
    codes_second: Map<Seq<char>, ChallengeView>,
    second: Result<LoginReply, AuthAPIError>,
    verify_time: i64,
    codes_after: Map<Seq<char>, ChallengeView>,
    verified: Result<Verify2FAReply, AuthAPIError>,
)
    requires
        login_post(
            users,
            codes_before,
            delivery,
            email,
            password,
            secret,
            first_time,
            codes_first,
            first,
        ),
        is_two_factor_reply(first, codes_first[email].0),
        login_post(
            users,
            codes_first,
            delivery,
            email,
            password,
            secret,
            second_time,
            codes_second,
            second,
        ),
        second is Ok,
        codes_second[email] != codes_first[email],
        verify_2fa_post(
            codes_second,
            email,
            codes_first[email].0,
            codes_first[email].1,
            secret,
            verify_time,
            codes_after,
            verified,
        ),
    ensures
        is_verify_2fa_failure(verified, AuthAPIError::IncorrectCredentials),
        codes_after == codes_second,
{
}

/// After a logout that succeeded, validating the same token reports it as
/// revoked, at any time and whatever its signature and expiry, and
/// introspection reports it as invalid.
pub proof fn lemma_token_is_revoked_after_logout(
    revoked_before: Set<Seq<char>>,
    token: Seq<char>,
    secret: Seq<char>,
    logout_time: i64,
    revoked_after: Set<Seq<char>>,
    logged_out: Result<LogoutReply, AuthAPIError>,
    later: i64,
    validated: Result<Claims, TokenError>,
    introspected: Result<u16, AuthAPIError>,
)
    requires
        logout_post(revoked_before, Some(token), secret, logout_time, revoked_after, logged_out),
        logged_out is Ok,
        validation_post(revoked_after, token, secret, later, validated),
        verify_token_post(revoked_after, token, secret, later, introspected),
    ensures
        validated matches Err(e) && e == TokenError::Revoked,
        introspected == Err::<u16, AuthAPIError>(AuthAPIError::InvalidToken),
{
}

/// After a logout that succeeded, a second logout with the same token is
/// refused with `TokenAlreadyInvalidated`, and nothing changes.
pub proof fn lemma_second_logout_is_refused(
    revoked_before: Set<Seq<char>>,
    token: Seq<char>,
    secret: Seq<char>,
    first_time: i64,
    revoked_between: Set<Seq<char>>,
    first: Result<LogoutReply, AuthAPIError>,
    second_time: i64,
    revoked_after: Set<Seq<char>>,
    second: Result<LogoutReply, AuthAPIError>,
)
    requires
        logout_post(revoked_before, Some(token), secret, first_time, revoked_between, first),
        first is Ok,
        logout_post(revoked_between, Some(token), secret, second_time, revoked_after, second),
    ensures
        is_logout_failure(second, AuthAPIError::TokenAlreadyInvalidated),
        revoked_after == revoked_between,
{
}

} // verus!
