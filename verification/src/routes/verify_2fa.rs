//! Second-factor verification: redeem a pending challenge for a session.

use crate::domain::data_stores::{ChallengeView, TwoFACodeStore, TwoFACodeStoreError};
use crate::domain::email::{email_address_accepts, Email};
use crate::domain::error::AuthAPIError;
use crate::domain::login_attempt_id::{uuid_hyphenated, LoginAttemptId};
use crate::domain::two_fa_code::{is_two_fa_code, TwoFACode};
use crate::utils::auth::{
    generate_auth_cookie_at, is_auth_cookie_for, is_clock_reading, issued_token_post,
    token_expiry, unix_time_now, AuthCookie, TokenError,
};
use vstd::prelude::*;

verus! {

/// Status of a verification that opened a session.
pub const VERIFY_2FA_STATUS: u16 = 200;

/// What a client submits to answer a two-factor challenge.
pub struct Verify2FARequest {
    pub email: String,
    pub login_attempt_id: String,
    pub two_fa_code: String,
}

/// What a verification hands back on success: the status and the session
/// cookie.
pub type Verify2FAReply = (u16, AuthCookie);

/// Whether `r` is the failure `error`.
pub open spec fn is_verify_2fa_failure(
    r: Result<Verify2FAReply, AuthAPIError>,
    error: AuthAPIError,
) -> bool {
    r matches Err(e) && e == error
}

/// Whether `r` opens a session: status 200 and the session cookie with a
/// token issued for `email` at `now`.
pub open spec fn is_verified_reply(
    r: Result<Verify2FAReply, AuthAPIError>,
    email: Seq<char>,
    secret: Seq<char>,
    now: i64,
) -> bool {
    &&& r matches Ok(reply)
    &&& reply.0 == VERIFY_2FA_STATUS
    &&& is_auth_cookie_for(reply.1, reply.1.value@)
    &&& issued_token_post(email, secret, now, Ok::<String, TokenError>(reply.1.value))
}

/// Whether the three submitted texts are well formed: an email, a UUID and
/// six digits.
pub open spec fn is_challenge_answer(
    email: Seq<char>,
    login_attempt_id: Seq<char>,
    code: Seq<char>,
) -> bool {
    &&& email_address_accepts(email)
    &&& uuid_hyphenated(login_attempt_id) is Some
    &&& is_two_fa_code(code)
}

/// Whether the challenge pending for `email` is the one that the answer
/// names: both the login attempt and the code are the same.
pub open spec fn answers_pending_challenge(
    codes: Map<Seq<char>, ChallengeView>,
    email: Seq<char>,
    login_attempt_id: Seq<char>,
    code: Seq<char>,
) -> bool {
    &&& codes.contains_key(email)
    &&& Some(codes[email].0) == uuid_hyphenated(login_attempt_id)
    &&& codes[email].1 == code
}

/// What a verification at `now` owes, over the challenges pending before and
/// after. A malformed answer is refused as invalid; an answer for an email
/// without a pending challenge, or one that differs from the pending
/// challenge in the login attempt or in the code, as incorrect; in both cases
/// no challenge changes. The right answer consumes the challenge, and the
/// reply opens a session; it reports an unexpected error only where no expiry
/// time can be had for the token.
pub open spec fn verify_2fa_post(
    before: Map<Seq<char>, ChallengeView>,
    email: Seq<char>,
    login_attempt_id: Seq<char>,
    code: Seq<char>,
    secret: Seq<char>,
    now: i64,
    after: Map<Seq<char>, ChallengeView>,
    r: Result<Verify2FAReply, AuthAPIError>,
) -> bool {
    if !is_challenge_answer(email, login_attempt_id, code) {
        is_verify_2fa_failure(r, AuthAPIError::InvalidCredentials) && after == before
    } else if !answers_pending_challenge(before, email, login_attempt_id, code) {
        is_verify_2fa_failure(r, AuthAPIError::IncorrectCredentials) && after == before
    } else {
        &&& after == before.remove(email)
        &&& if token_expiry(now) is Some {
            is_verified_reply(r, email, secret, now)
        } else {
            is_verify_2fa_failure(r, AuthAPIError::UnexpectedError)
        }
    }
}

/// What a verification at `now` owes, whatever the store. A malformed answer
/// is refused as invalid, and the store is left as it was; no other answer
/// is refused as invalid. No other
/// failures come out than invalid credentials, incorrect credentials and an
/// unexpected error. A success opens a session for the email at `now`. With
/// a store that keeps to its model, the outcome is that of `verify_2fa_post`
/// over it.
pub open spec fn verify_2fa_at_post<T: TwoFACodeStore>(
    before: T,
    email: Seq<char>,
    login_attempt_id: Seq<char>,
    code: Seq<char>,
    secret: Seq<char>,
    now: i64,
    after: T,
    r: Result<Verify2FAReply, AuthAPIError>,
) -> bool {
    &&& !is_challenge_answer(email, login_attempt_id, code) ==> {
        &&& is_verify_2fa_failure(r, AuthAPIError::InvalidCredentials)
        &&& after == before
    }
    &&& is_challenge_answer(email, login_attempt_id, code) ==> !is_verify_2fa_failure(
        r,
        AuthAPIError::InvalidCredentials,
    )
    &&& r matches Err(e) ==> e == AuthAPIError::InvalidCredentials || e
        == AuthAPIError::IncorrectCredentials || e == AuthAPIError::UnexpectedError
    &&& r is Ok ==> is_verified_reply(r, email, secret, now)
    &&& T::obeys_model() ==> verify_2fa_post(
        before.codes(),
        email,
        login_attempt_id,
        code,
        secret,
        now,
        after.codes(),
        r,
    )
}

/// What the store's answer comes to for an answer to a challenge: it passes
/// where the store handed out the challenge that the answer names; a
/// challenge that differs in the login attempt or in the code, and an email
/// without a pending challenge, are incorrect credentials; any other
/// failure of the store is unexpected.
pub open spec fn pending_challenge_result(
    found: Result<(LoginAttemptId, TwoFACode), TwoFACodeStoreError>,
    login_attempt_id: Seq<char>,
    two_fa_code: Seq<char>,
) -> Result<(), AuthAPIError> {
    match found {
        Ok(pending) => if pending.0@ == login_attempt_id && pending.1@ == two_fa_code {
            Ok(())
        } else {
            Err(AuthAPIError::IncorrectCredentials)
        },
        Err(error) => if error is LoginAttemptIdNotFound {
            Err(AuthAPIError::IncorrectCredentials)
        } else {
            Err(AuthAPIError::UnexpectedError)
        },
    }
}

/// Compares what the store handed out with the answer to the challenge.
pub fn checked_challenge(
    found: &Result<(LoginAttemptId, TwoFACode), TwoFACodeStoreError>,
    login_attempt_id: &LoginAttemptId,
    two_fa_code: &TwoFACode,
) -> (r: Result<(), AuthAPIError>)
    ensures
        r == pending_challenge_result(*found, login_attempt_id@, two_fa_code@),
{
    match found {
        Ok(pending) => {
            if pending.0 == *login_attempt_id && pending.1 == *two_fa_code {
                Ok(())
            } else {
                Err(AuthAPIError::IncorrectCredentials)
            }
        },
        Err(TwoFACodeStoreError::LoginAttemptIdNotFound) => Err(AuthAPIError::IncorrectCredentials),
        Err(_) => Err(AuthAPIError::UnexpectedError),
    }
}

/// Whether the challenge was consumed: a failure of the store is reported as
/// unexpected, and no session is opened.
pub fn challenge_consumed(removed: Result<(), TwoFACodeStoreError>) -> (r: Result<(), AuthAPIError>)
    ensures
        removed is Ok ==> r == Ok::<(), AuthAPIError>(()),
        removed is Err ==> r == Err::<(), AuthAPIError>(AuthAPIError::UnexpectedError),
{
    match removed {
        Ok(()) => Ok(()),
        Err(_) => Err(AuthAPIError::UnexpectedError),
    }
}

/// The reply to the right answer, given the outcome of issuing the cookie.
pub fn verified_reply(issued: Result<AuthCookie, TokenError>) -> (r: Result<
    Verify2FAReply,
    AuthAPIError,
>)
    ensures
        issued matches Ok(cookie) ==> r == Ok::<Verify2FAReply, AuthAPIError>(
            (VERIFY_2FA_STATUS, cookie),
        ),
        issued is Err ==> is_verify_2fa_failure(r, AuthAPIError::UnexpectedError),
{
    match issued {
        Ok(cookie) => Ok((VERIFY_2FA_STATUS, cookie)),
        Err(_) => Err(AuthAPIError::UnexpectedError),
    }
}

/// Verifies an answer to a two-factor challenge at the time `now`: validates
/// the three submitted texts, compares them with the pending challenge,
/// consumes the challenge, and opens a session.
pub fn verify_2fa_at<T: TwoFACodeStore>(
    two_fa_code_store: &mut T,
    jwt_secret: &str,
    request: Verify2FARequest,
    now: i64,
) -> (r: Result<Verify2FAReply, AuthAPIError>)
    ensures
        verify_2fa_at_post(
            *old(two_fa_code_store),
            request.email@,
            request.login_attempt_id@,
            request.two_fa_code@,
            jwt_secret@,
            now,
            *final(two_fa_code_store),
            r,
        ),
{
    let email = match Email::parse(request.email.as_str()) {
        Ok(email) => email,
        Err(_) => {
            return Err(AuthAPIError::InvalidCredentials);
        },
    };
    let login_attempt_id = match LoginAttemptId::parse(request.login_attempt_id) {
        Ok(login_attempt_id) => login_attempt_id,
        Err(_) => {
            return Err(AuthAPIError::InvalidCredentials);
        },
    };
    let two_fa_code = match TwoFACode::parse(request.two_fa_code) {
        Ok(two_fa_code) => two_fa_code,
        Err(_) => {
            return Err(AuthAPIError::InvalidCredentials);
        },
    };
    let found = two_fa_code_store.get_code(&email);
    match checked_challenge(&found, &login_attempt_id, &two_fa_code) {
        Ok(()) => {},
        Err(e) => {
            return Err(e);
        },
    }
    match challenge_consumed(two_fa_code_store.remove_code(&email)) {
        Ok(()) => {},
        Err(e) => {
            return Err(e);
        },
    }
    verified_reply(generate_auth_cookie_at(&email, jwt_secret, now))
}

/// Verifies an answer to a two-factor challenge now.
pub fn verify_2fa<T: TwoFACodeStore>(
    two_fa_code_store: &mut T,
    jwt_secret: &str,
    request: Verify2FARequest,
) -> (r: Result<Verify2FAReply, AuthAPIError>)
    ensures
        exists|now: i64|
            is_clock_reading(now) && #[trigger] verify_2fa_at_post(
                *old(two_fa_code_store),
                request.email@,
                request.login_attempt_id@,
                request.two_fa_code@,
                jwt_secret@,
                now,
                *final(two_fa_code_store),
                r,
            ),
{
    let now = unix_time_now();
    verify_2fa_at(two_fa_code_store, jwt_secret, request, now)
}

} // verus!
