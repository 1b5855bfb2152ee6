//! Session tokens: signed, self-contained proof of a login, carrying the
//! subject's email and an expiry time. A token is valid when it was not
//! revoked, its signature holds under the secret, and it has not expired.

use crate::domain::data_stores::{BannedTokenStore, BannedTokenStoreError};
use crate::domain::email::Email;
use crate::utils::constants::JWT_COOKIE_NAME;
use vstd::prelude::*;

verus! {

/// How long a token stays valid after it is issued, in seconds.
pub const TOKEN_TTL_SECONDS: i64 = 600;

/// A time, in seconds since the Unix epoch, that no clock reading reaches:
/// 2^31 days.
pub const CLOCK_READING_END: i64 = 185_542_587_187_200;

/// Whether `now` can be a reading of the clock: a time from the Unix epoch
/// on and before `CLOCK_READING_END`.
pub open spec fn is_clock_reading(now: i64) -> bool {
    0 <= now < CLOCK_READING_END
}

/// The error type of `jsonwebtoken`.
#[verifier::external_type_specification]
#[verifier::external_body]
pub struct ExJwtError(jsonwebtoken::errors::Error);

/// The token that `jsonwebtoken::encode` makes with the default header
/// (HS256) of the claims `sub` and `exp` under the secret.
pub uninterp spec fn hs256_token(sub: Seq<char>, exp: u64, secret: Seq<char>) -> Seq<char>;

/// What `jsonwebtoken::decode` reads from `token` under the secret, with the
/// default validation but for the expiry check: `None` where it rejects the
/// token, else the claim `sub` where it is a string and the claim `exp` where
/// it is a whole number.
pub uninterp spec fn hs256_payload(token: Seq<char>, secret: Seq<char>) -> Option<
    (Option<Seq<char>>, Option<u64>),
>;

/// The claims that a decoder handed out, as plain values.
pub open spec fn payload_view(payload: (Option<String>, Option<u64>)) -> (
    Option<Seq<char>>,
    Option<u64>,
) {
    (
        match payload.0 {
            Some(sub) => Some(sub@),
            None => None,
        },
        payload.1,
    )
}

/// Calls `jsonwebtoken::encode` with the default header, the claims `sub` and
/// `exp`, and an HMAC key made of the secret's bytes.
///
/// Trusted: encoding succeeds, since with this header and an HMAC key the
/// key fits the algorithm, signing with HMAC has no failure, and a string
/// and a number are written as JSON without failure; the token is a function
/// of the three values alone; it is not empty (three parts joined by dots);
/// and decoding it under the same secret gives the two claims back.
#[verifier::external_body]
fn encode_hs256(sub: &str, exp: u64, secret: &str) -> (r: Result<
    String,
    jsonwebtoken::errors::Error,
>)
    ensures
        r is Ok,
        r matches Ok(token) ==> {
            &&& token@ == hs256_token(sub@, exp, secret@)
            &&& token@.len() > 0
            &&& hs256_payload(token@, secret@) == Some((Some(sub@), Some(exp)))
        },
{
    let mut claims = serde_json::Map::new();
    claims.insert("sub".to_owned(), serde_json::Value::from(sub));
    claims.insert("exp".to_owned(), serde_json::Value::from(exp));
    let key = jsonwebtoken::EncodingKey::from_secret(secret.as_bytes());
    jsonwebtoken::encode(&jsonwebtoken::Header::default(), &claims, &key)
}

/// Calls `jsonwebtoken::decode` with an HMAC key made of the secret's bytes
/// and the default validation with the expiry check switched off, and hands
/// out the claims `sub` and `exp`.
///
/// Trusted: the outcome is a function of the two texts alone.
#[verifier::external_body]
fn decode_hs256(token: &str, secret: &str) -> (r: Result<
    (Option<String>, Option<u64>),
    jsonwebtoken::errors::Error,
>)
    ensures
        r matches Ok(payload) ==> hs256_payload(token@, secret@) == Some(payload_view(payload)),
        r is Err ==> hs256_payload(token@, secret@) is None,
{
    let mut validation = jsonwebtoken::Validation::default();
    validation.validate_exp = false;
    let key = jsonwebtoken::DecodingKey::from_secret(secret.as_bytes());
    let data = jsonwebtoken::decode::<serde_json::Value>(token, &key, &validation)?;
    let sub = data.claims.get("sub").and_then(serde_json::Value::as_str).map(str::to_owned);
    let exp = data.claims.get("exp").and_then(serde_json::Value::as_u64);
    Ok((sub, exp))
}

/// Calls `chrono::Utc::now` and takes its Unix timestamp, in seconds.
///
/// Trusted: the reading counts from the Unix epoch on, so it is not
/// negative; and `chrono` makes a date of it whose day count fits 32 bits,
/// so it lies before `CLOCK_READING_END`.
#[verifier::external_body]
pub(crate) fn unix_time_now() -> (now: i64)
    ensures
        is_clock_reading(now),
{
    chrono::Utc::now().timestamp()
}

/// Why a token could not be issued or is not valid.
#[derive(Debug, Clone, Copy, PartialEq, Eq, Structural)]
pub enum TokenError {
    /// The token was revoked.
    Revoked,
    /// The token is malformed or its signature does not hold.
    Invalid,
    /// The token's expiry time has passed.
    Expired,
    /// The clock, the signer or the banned-token store failed.
    UnexpectedError,
}

/// Claims carried by a session token: the subject's email and the expiry
/// time in seconds since the Unix epoch.
#[derive(Debug)]
pub struct Claims {
    pub sub: String,
    pub exp: usize,
}

/// Whether cookies travel with requests from other sites.
#[derive(Debug, Clone, Copy, PartialEq, Eq, Structural)]
pub enum SameSite {
    Strict,
    Lax,
    Unrestricted,
}

/// The cookie that carries a session token to the client.
#[derive(Debug)]
pub struct AuthCookie {
    pub name: String,
    pub value: String,
    pub path: String,
    pub http_only: bool,
    pub same_site: SameSite,
}

/// Whether `cookie` is the session cookie for `token`: named `jwt`, for every
/// path, hidden from scripts, and lax about other sites.
pub open spec fn is_auth_cookie_for(cookie: AuthCookie, token: Seq<char>) -> bool {
    &&& cookie.name@ == JWT_COOKIE_NAME@
    &&& cookie.value@ == token
    &&& cookie.path@ == "/"@
    &&& cookie.http_only
    &&& cookie.same_site == SameSite::Lax
}

/// The expiry time of a token issued at `now`: ten minutes later, where that
/// time is not negative and fits the machine's word.
pub open spec fn token_expiry(now: i64) -> Option<usize> {
    if 0 <= now + TOKEN_TTL_SECONDS <= i64::MAX && now + TOKEN_TTL_SECONDS <= usize::MAX {
        Some((now + TOKEN_TTL_SECONDS) as usize)
    } else {
        None
    }
}

/// What issuing a token for `email` at `now` owes: an unexpected error where
/// the expiry time cannot be had, and nowhere else; else the signed token of
/// the email and that expiry time, which is not empty and decodes to the
/// two.
pub open spec fn issued_token_post(
    email: Seq<char>,
    secret: Seq<char>,
    now: i64,
    r: Result<String, TokenError>,
) -> bool {
    match token_expiry(now) {
        Some(exp) => {
            &&& r matches Ok(token)
            &&& token@ == hs256_token(email, exp as u64, secret)
            &&& token@.len() > 0
            &&& hs256_payload(token@, secret) == Some((Some(email), Some(exp as u64)))
        },
        None => r matches Err(e) && e == TokenError::UnexpectedError,
    }
}

/// What issuing the session cookie for `email` at `now` owes: the session
/// cookie for the token issued, or the failure to issue one.
pub open spec fn issued_cookie_post(
    email: Seq<char>,
    secret: Seq<char>,
    now: i64,
    r: Result<AuthCookie, TokenError>,
) -> bool {
    match r {
        Ok(cookie) => {
            &&& is_auth_cookie_for(cookie, cookie.value@)
            &&& issued_token_post(email, secret, now, Ok::<String, TokenError>(cookie.value))
        },
        Err(e) => issued_token_post(email, secret, now, Err::<String, TokenError>(e)),
    }
}

/// The claims of a decoded token at `now`, or why they are refused: a token
/// that was rejected, lacks a claim or carries an expiry time beyond the
/// machine's word is invalid; one whose expiry time lies before `now` has
/// expired.
pub open spec fn checked_claims(
    payload: Option<(Option<Seq<char>>, Option<u64>)>,
    now: i64,
) -> Result<(Seq<char>, usize), TokenError> {
    match payload {
        Some((Some(sub), Some(exp))) => {
            if exp > usize::MAX {
                Err(TokenError::Invalid)
            } else if exp < now {
                Err(TokenError::Expired)
            } else {
                Ok((sub, exp as usize))
            }
        },
        _ => Err(TokenError::Invalid),
    }
}

/// Whether `r` is what `checked` stands for.
pub open spec fn is_claims_result(
    checked: Result<(Seq<char>, usize), TokenError>,
    r: Result<Claims, TokenError>,
) -> bool {
    match checked {
        Ok((sub, exp)) => r matches Ok(claims) && claims.sub@ == sub && claims.exp == exp,
        Err(e) => r matches Err(found) && found == e,
    }
}

/// What validating `token` at `now` owes over the set of revoked tokens: a
/// revoked token is reported as revoked, before anything else is looked at,
/// and any other token gets its claims or the reason they are refused.
pub open spec fn validation_post(
    revoked: Set<Seq<char>>,
    token: Seq<char>,
    secret: Seq<char>,
    now: i64,
    r: Result<Claims, TokenError>,
) -> bool {
    if revoked.contains(token) {
        r matches Err(e) && e == TokenError::Revoked
    } else {
        is_claims_result(checked_claims(hs256_payload(token, secret), now), r)
    }
}

/// What validating `token` at `now` against a store owes. Whatever the
/// store: claims are handed out only as the token carries them, and `Invalid`
/// and `Expired` are reported only of a token that is so. With a store that
/// keeps to its model, the outcome is that of `validation_post` over the
/// store's tokens.
pub open spec fn validate_token_post<B: BannedTokenStore>(
    banned_token_store: &B,
    token: Seq<char>,
    secret: Seq<char>,
    now: i64,
    r: Result<Claims, TokenError>,
) -> bool {
    let checked = checked_claims(hs256_payload(token, secret), now);
    &&& r is Ok ==> is_claims_result(checked, r)
    &&& (r is Err && (r->Err_0 == TokenError::Invalid || r->Err_0 == TokenError::Expired))
        ==> is_claims_result(checked, r)
    &&& B::obeys_model() ==> validation_post(banned_token_store.tokens(), token, secret, now, r)
}

/// The session cookie for `token`.
pub fn create_auth_cookie(token: String) -> (cookie: AuthCookie)
    ensures
        is_auth_cookie_for(cookie, token@),
{
    AuthCookie {
        name: JWT_COOKIE_NAME.to_owned(),
        value: token,
        path: "/".to_owned(),
        http_only: true,
        same_site: SameSite::Lax,
    }
}

/// Keeps a signed token, and reports any failure of the signer as an
/// unexpected error.
pub fn token_outcome(outcome: Result<String, jsonwebtoken::errors::Error>) -> (r: Result<
    String,
    TokenError,
>)
    ensures
        outcome matches Ok(token) ==> r == Ok::<String, TokenError>(token),
        outcome is Err ==> r == Err::<String, TokenError>(TokenError::UnexpectedError),
{
    match outcome {
        Ok(token) => Ok(token),
        Err(_) => Err(TokenError::UnexpectedError),
    }
}

/// Signs `claims` under the secret.
pub fn create_token(claims: &Claims, jwt_secret: &str) -> (r: Result<String, TokenError>)
    ensures
        r is Ok,
        r matches Ok(token) ==> {
            &&& token@ == hs256_token(claims.sub@, claims.exp as u64, jwt_secret@)
            &&& token@.len() > 0
            &&& hs256_payload(token@, jwt_secret@) == Some(
                (Some(claims.sub@), Some(claims.exp as u64)),
            )
        },
{
    token_outcome(encode_hs256(claims.sub.as_str(), claims.exp as u64, jwt_secret))
}

/// Issues a token for `email` at the time `now`, valid for ten minutes.
pub fn generate_auth_token_at(email: &Email, jwt_secret: &str, now: i64) -> (r: Result<
    String,
    TokenError,
>)
    ensures
        issued_token_post(email@, jwt_secret@, now, r),
{
    let exp: i64 = match now.checked_add(TOKEN_TTL_SECONDS) {
        Some(exp) => exp,
        None => {
            return Err(TokenError::UnexpectedError);
        },
    };
    let exp: usize = match usize::try_from(exp) {
        Ok(exp) => exp,
        Err(_) => {
            return Err(TokenError::UnexpectedError);
        },
    };
    let sub = email.as_ref().to_owned();
    let claims = Claims { sub, exp };
    create_token(&claims, jwt_secret)
}

/// Issues a token for `email` now, valid for ten minutes. On a machine whose
/// word holds every clock reading, a token is issued.
pub fn generate_auth_token(email: &Email, jwt_secret: &str) -> (r: Result<String, TokenError>)
    ensures
        exists|now: i64|
            is_clock_reading(now) && #[trigger] issued_token_post(email@, jwt_secret@, now, r),
        usize::MAX >= CLOCK_READING_END + TOKEN_TTL_SECONDS ==> r is Ok,
{
    let now = unix_time_now();
    generate_auth_token_at(email, jwt_secret, now)
}

/// Issues a token for `email` at the time `now` and wraps it in the session
/// cookie.
pub fn generate_auth_cookie_at(email: &Email, jwt_secret: &str, now: i64) -> (r: Result<
    AuthCookie,
    TokenError,
>)
    ensures
        issued_cookie_post(email@, jwt_secret@, now, r),
{
    match generate_auth_token_at(email, jwt_secret, now) {
        Ok(token) => Ok(create_auth_cookie(token)),
        Err(e) => Err(e),
    }
}

/// Issues a token for `email` now and wraps it in the session cookie. On a
/// machine whose word holds every clock reading, a cookie is issued.
pub fn generate_auth_cookie(email: &Email, jwt_secret: &str) -> (r: Result<AuthCookie, TokenError>)
    ensures
        exists|now: i64|
            is_clock_reading(now) && #[trigger] issued_cookie_post(email@, jwt_secret@, now, r),
        usize::MAX >= CLOCK_READING_END + TOKEN_TTL_SECONDS ==> r is Ok,
{
    let now = unix_time_now();
    generate_auth_cookie_at(email, jwt_secret, now)
}

/// Turns what the decoder read into claims, checked against the time `now`.
pub fn claims_from_payload(
    outcome: Result<(Option<String>, Option<u64>), jsonwebtoken::errors::Error>,
    now: i64,
) -> (r: Result<Claims, TokenError>)
    ensures
        outcome matches Ok(payload) ==> is_claims_result(
            checked_claims(Some(payload_view(payload)), now),
            r,
        ),
        outcome is Err ==> (r matches Err(e) && e == TokenError::Invalid),
{
    match outcome {
        Ok((Some(sub), Some(exp))) => {
            let exp: usize = match usize::try_from(exp) {
                Ok(exp) => exp,
                Err(_) => {
                    return Err(TokenError::Invalid);
                },
            };
            if now > 0 && (exp as u64) < (now as u64) {
                Err(TokenError::Expired)
            } else {
                Ok(Claims { sub, exp })
            }
        },
        _ => Err(TokenError::Invalid),
    }
}

/// Whether validation goes on, given what the banned-token store answered: a
/// token that it holds is revoked; where it could not answer, the token is
/// refused with an unexpected error, never passed.
pub fn revocation_outcome(answer: Result<bool, BannedTokenStoreError>) -> (r: Result<
    (),
    TokenError,
>)
    ensures
        answer matches Ok(revoked) ==> (if revoked {
            r == Err::<(), TokenError>(TokenError::Revoked)
        } else {
            r == Ok::<(), TokenError>(())
        }),
        answer is Err ==> r == Err::<(), TokenError>(TokenError::UnexpectedError),
{
    match answer {
        Ok(true) => Err(TokenError::Revoked),
        Ok(false) => Ok(()),
        Err(_) => Err(TokenError::UnexpectedError),
    }
}

/// Validates `token` at the time `now`: first against the banned-token store,
/// then its signature and claims, then its expiry time.
pub fn validate_token_at<B: BannedTokenStore>(
    token: &str,
    banned_token_store: &B,
    jwt_secret: &str,
    now: i64,
) -> (r: Result<Claims, TokenError>)
    ensures
        validate_token_post(banned_token_store, token@, jwt_secret@, now, r),
{
    match revocation_outcome(banned_token_store.contains_token(token)) {
        Ok(()) => {},
        Err(e) => {
            return Err(e);
        },
    }
    let outcome = decode_hs256(token, jwt_secret);
    claims_from_payload(outcome, now)
}

/// Validates `token` now.
pub fn validate_token<B: BannedTokenStore>(
    token: &str,
    banned_token_store: &B,
    jwt_secret: &str,
) -> (r: Result<Claims, TokenError>)
    ensures
        exists|now: i64|
            is_clock_reading(now) && #[trigger] validate_token_post(
                banned_token_store,
                token@,
                jwt_secret@,
                now,
                r,
            ),
{
    let now = unix_time_now();
    validate_token_at(token, banned_token_store, jwt_secret, now)
}

} // verus!
