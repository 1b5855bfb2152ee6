//! Login: check credentials, then either open a session or start a
//! two-factor challenge.

use crate::domain::data_stores::{
    ChallengeView, TwoFACodeStore, TwoFACodeStoreError, UserStore, UserStoreError,
};
use crate::domain::email::{email_address_accepts, Email};
use crate::domain::email_client::EmailClient;
use crate::domain::error::AuthAPIError;
use crate::domain::login_attempt_id::{is_login_attempt_id, LoginAttemptId};
use crate::domain::password::{is_acceptable_password, Password};
use crate::domain::two_fa_code::{is_two_fa_code, TwoFACode};
use crate::domain::user::{User, UserView};
use crate::services::password_hash::hash_accepts;
use crate::utils::auth::{
    generate_auth_cookie_at, is_auth_cookie_for, is_clock_reading, issued_token_post,
    token_expiry, unix_time_now, AuthCookie, TokenError,
};
use vstd::prelude::*;

verus! {

/// Status of a login that opened a session.
pub const LOGIN_STATUS: u16 = 200;

/// Status of a login that awaits a second factor: partial content.
pub const TWO_FACTOR_STATUS: u16 = 206;

/// Subject of the message that carries a two-factor code.
pub const TWO_FA_EMAIL_SUBJECT: &'static str = "Your 2FA code";

/// What a client submits to log in.
pub struct LoginRequest {
    pub email: String,
    pub password: String,
}

/// The two ways a login can succeed.
#[derive(Debug)]
pub enum LoginResponse {
    RegularAuth,
    TwoFactorAuth(TwoFactorAuthResponse),
}

/// Body returned when a second factor is required.
#[derive(Debug, PartialEq, Eq)]
pub struct TwoFactorAuthResponse {
    pub message: String,
    pub login_attempt_id: String,
}

/// What a login hands back on success: the status, the session cookie where
/// a session was opened, and the body.
pub type LoginReply = (u16, Option<AuthCookie>, LoginResponse);

/// Whether `r` is the failure `error`.
pub open spec fn is_login_failure(r: Result<LoginReply, AuthAPIError>, error: AuthAPIError) -> bool {
    r matches Err(e) && e == error
}

/// Whether `r` opens a session: status 200, the regular body, and the session
/// cookie with a token issued for `email` at `now`.
pub open spec fn is_session_reply(
    r: Result<LoginReply, AuthAPIError>,
    email: Seq<char>,
    secret: Seq<char>,
    now: i64,
) -> bool {
    &&& r matches Ok(reply)
    &&& reply.0 == LOGIN_STATUS
    &&& reply.2 is RegularAuth
    &&& reply.1 matches Some(cookie)
    &&& is_auth_cookie_for(cookie, cookie.value@)
    &&& issued_token_post(email, secret, now, Ok::<String, TokenError>(cookie.value))
}

/// Whether `r` asks for a second factor: status 206, no cookie, and a body
/// that names the login attempt but not the code.
pub open spec fn is_two_factor_reply(
    r: Result<LoginReply, AuthAPIError>,
    login_attempt_id: Seq<char>,
) -> bool {
    &&& r matches Ok(reply)
    &&& reply.0 == TWO_FACTOR_STATUS
    &&& reply.1 is None
    &&& reply.2 matches LoginResponse::TwoFactorAuth(body)
    &&& body.message@ == "2FA required"@
    &&& body.login_attempt_id@ == login_attempt_id
}

/// Whether `r` asks for a second factor and names a login attempt.
pub open spec fn is_challenge_reply(r: Result<LoginReply, AuthAPIError>) -> bool {
    &&& r matches Ok(reply)
    &&& reply.2 matches LoginResponse::TwoFactorAuth(body)
    &&& is_login_attempt_id(body.login_attempt_id@)
    &&& is_two_factor_reply(r, body.login_attempt_id@)
}

/// Whether the user store holds a user for `email` whose password hash
/// accepts `password`.
pub open spec fn credentials_match(
    users: Map<Seq<char>, UserView>,
    email: Seq<char>,
    password: Seq<char>,
) -> bool {
    users.contains_key(email) && hash_accepts(users[email].password, password)
}

/// Which messages an email client gets through, where that is known: the
/// recipient, the subject and the content of a message, to whether it is
/// delivered.
pub type Delivery = Option<spec_fn(Seq<char>, Seq<char>, Seq<char>) -> bool>;

/// What is known of the deliveries of `email_client`: its model, where it
/// keeps to one.
pub open spec fn delivery_of<E: EmailClient>(email_client: &E) -> Delivery {
    if E::obeys_model() {
        Some(
            |recipient: Seq<char>, subject: Seq<char>, content: Seq<char>|
                email_client.delivers(recipient, subject, content),
        )
    } else {
        None
    }
}

/// What a login at `now` owes, over the users held and the challenges pending
/// before and after.
///
/// A malformed email or a short password is refused as invalid. An unknown
/// email and a wrong password are refused alike, as incorrect. In both cases
/// no challenge changes.
///
/// For a user without a second factor, no challenge changes, and the reply
/// opens a session; it reports an unexpected error only where no expiry time
/// can be had for the token.
///
/// For a user with a second factor, a fresh challenge replaces whatever was
/// pending for the email, and its code is sent to the email under the fixed
/// subject. The reply names the challenge's login attempt where the code was
/// delivered, and reports an unexpected error where it was not; where the
/// deliveries of the email client are not known, it is one of the two.
pub open spec fn login_post(
    users: Map<Seq<char>, UserView>,
    before: Map<Seq<char>, ChallengeView>,
    delivery: Delivery,
    email: Seq<char>,
    password: Seq<char>,
    secret: Seq<char>,
    now: i64,
    after: Map<Seq<char>, ChallengeView>,
    r: Result<LoginReply, AuthAPIError>,
) -> bool {
    if !email_address_accepts(email) || !is_acceptable_password(password) {
        is_login_failure(r, AuthAPIError::InvalidCredentials) && after == before
    } else if !credentials_match(users, email, password) {
        is_login_failure(r, AuthAPIError::IncorrectCredentials) && after == before
    } else if !users[email].requires_2fa {
        &&& after == before
        &&& if token_expiry(now) is Some {
            is_session_reply(r, email, secret, now)
        } else {
            is_login_failure(r, AuthAPIError::UnexpectedError)
        }
    } else {
        &&& after == before.insert(email, after[email])
        &&& is_login_attempt_id(after[email].0)
        &&& is_two_fa_code(after[email].1)
        &&& match delivery {
            Some(delivers) => if delivers(email, TWO_FA_EMAIL_SUBJECT@, after[email].1) {
                is_two_factor_reply(r, after[email].0)
            } else {
                is_login_failure(r, AuthAPIError::UnexpectedError)
            },
            None => is_two_factor_reply(r, after[email].0) || is_login_failure(
                r,
                AuthAPIError::UnexpectedError,
            ),
        }
    }
}

/// What a login at `now` owes, whatever the stores and the email client. A
/// malformed email or a short password is refused as invalid, and the
/// challenge store is left as it was; nothing else is refused as invalid. No
/// other failures come out than
/// invalid credentials, incorrect credentials and an unexpected error. A
/// success opens a session for the email at `now`, or asks for a second
/// factor and names a login attempt. With stores that keep to their models,
/// the outcome is that of `login_post` over them.
pub open spec fn post_login_post<U: UserStore, T: TwoFACodeStore, E: EmailClient>(
    user_store: &U,
    before: T,
    email_client: &E,
    email: Seq<char>,
    password: Seq<char>,
    secret: Seq<char>,
    now: i64,
    after: T,
    r: Result<LoginReply, AuthAPIError>,
) -> bool {
    &&& !email_address_accepts(email) || !is_acceptable_password(password) ==> {
        &&& is_login_failure(r, AuthAPIError::InvalidCredentials)
        &&& after == before
    }
    &&& email_address_accepts(email) && is_acceptable_password(password) ==> !is_login_failure(
        r,
        AuthAPIError::InvalidCredentials,
    )
    &&& r matches Err(e) ==> e == AuthAPIError::InvalidCredentials || e
        == AuthAPIError::IncorrectCredentials || e == AuthAPIError::UnexpectedError
    &&& r is Ok ==> is_session_reply(r, email, secret, now) || is_challenge_reply(r)
    &&& U::obeys_model() && T::obeys_model() ==> login_post(
        user_store.users(),
        before.codes(),
        delivery_of(email_client),
        email,
        password,
        secret,
        now,
        after.codes(),
        r,
    )
}

/// How a failure of the user store at login is reported: an unknown email
/// and a wrong password alike, as incorrect credentials, so that a caller
/// cannot tell the one from the other; any other failure as unexpected.
pub open spec fn credentials_failure(error: UserStoreError) -> AuthAPIError {
    if error is UserNotFound || error is InvalidCredentials {
        AuthAPIError::IncorrectCredentials
    } else {
        AuthAPIError::UnexpectedError
    }
}

/// What the two answers of the user store come to: the user where it
/// validated the credentials and handed the user out, else the report of
/// the first failure.
pub open spec fn checked_user_result(
    validated: Result<(), UserStoreError>,
    fetched: Result<User, UserStoreError>,
) -> Result<User, AuthAPIError> {
    match validated {
        Err(error) => Err(credentials_failure(error)),
        Ok(_) => match fetched {
            Err(error) => Err(credentials_failure(error)),
            Ok(user) => Ok(user),
        },
    }
}

/// How a failure of the user store at login is reported.
pub fn report_credentials_failure(error: &UserStoreError) -> (e: AuthAPIError)
    ensures
        e == credentials_failure(*error),
{
    match error {
        UserStoreError::UserNotFound => AuthAPIError::IncorrectCredentials,
        UserStoreError::InvalidCredentials => AuthAPIError::IncorrectCredentials,
        _ => AuthAPIError::UnexpectedError,
    }
}

/// Whether the user store vouched for the credentials: it validated them and
/// then handed out the user. A mismatch is reported as incorrect
/// credentials, a failure of the store as unexpected.
pub fn checked_user(
    validated: Result<(), UserStoreError>,
    fetched: Result<User, UserStoreError>,
) -> (r: Result<User, AuthAPIError>)
    ensures
        r == checked_user_result(validated, fetched),
{
    match validated {
        Ok(()) => match fetched {
            Ok(user) => Ok(user),
            Err(error) => Err(report_credentials_failure(&error)),
        },
        Err(error) => Err(report_credentials_failure(&error)),
    }
}

/// Whether the challenge was stored: a failure of the store is reported as
/// unexpected.
pub fn challenge_stored(stored: Result<(), TwoFACodeStoreError>) -> (r: Result<(), AuthAPIError>)
    ensures
        stored is Ok ==> r == Ok::<(), AuthAPIError>(()),
        stored is Err ==> r == Err::<(), AuthAPIError>(AuthAPIError::UnexpectedError),
{
    match stored {
        Ok(()) => Ok(()),
        Err(_) => Err(AuthAPIError::UnexpectedError),
    }
}

/// The reply that opens a session, given the outcome of issuing the cookie.
pub fn session_reply(issued: Result<AuthCookie, TokenError>) -> (r: Result<LoginReply, AuthAPIError>)
    ensures
        issued matches Ok(cookie) ==> {
            &&& r matches Ok(reply)
            &&& reply.0 == LOGIN_STATUS
            &&& reply.1 == Some(cookie)
            &&& reply.2 is RegularAuth
        },
        issued is Err ==> is_login_failure(r, AuthAPIError::UnexpectedError),
{
    match issued {
        Ok(cookie) => Ok((LOGIN_STATUS, Some(cookie), LoginResponse::RegularAuth)),
        Err(_) => Err(AuthAPIError::UnexpectedError),
    }
}

/// The reply that asks for a second factor, given whether the code was sent:
/// it names the login attempt where it was, and is an unexpected error
/// otherwise.
pub fn two_factor_reply(sent: Result<(), String>, login_attempt_id: &LoginAttemptId) -> (r: Result<
    LoginReply,
    AuthAPIError,
>)
    ensures
        sent is Ok ==> is_two_factor_reply(r, login_attempt_id@),
        sent is Err ==> is_login_failure(r, AuthAPIError::UnexpectedError),
{
    match sent {
        Ok(()) => {
            let body = TwoFactorAuthResponse {
                message: "2FA required".to_owned(),
                login_attempt_id: login_attempt_id.as_ref().to_owned(),
            };
            Ok((TWO_FACTOR_STATUS, None, LoginResponse::TwoFactorAuth(body)))
        },
        Err(_) => Err(AuthAPIError::UnexpectedError),
    }
}

/// Starts a two-factor challenge for `email`: draws a fresh login attempt
/// identifier and code, stores them in place of any pending challenge, and
/// sends the code to the email address. The code is sent only where it was
/// stored.
fn handle_2fa<T: TwoFACodeStore, E: EmailClient>(
    email: &Email,
    two_fa_code_store: &mut T,
    email_client: &E,
) -> (r: Result<LoginReply, AuthAPIError>)
    ensures
        is_login_failure(r, AuthAPIError::UnexpectedError) || is_challenge_reply(r),
        T::obeys_model() ==> {
            let after = final(two_fa_code_store).codes();
            &&& after == old(two_fa_code_store).codes().insert(email@, after[email@])
            &&& is_login_attempt_id(after[email@].0)
            &&& is_two_fa_code(after[email@].1)
            &&& is_two_factor_reply(r, after[email@].0) || is_login_failure(
                r,
                AuthAPIError::UnexpectedError,
            )
            &&& E::obeys_model() ==> (r is Ok <==> email_client.delivers(
                email@,
                TWO_FA_EMAIL_SUBJECT@,
                after[email@].1,
            ))
        },
{
    let login_attempt_id = LoginAttemptId::default();
    let two_fa_code = TwoFACode::default();
    let stored = two_fa_code_store.add_code(
        email.clone(),
        login_attempt_id.clone(),
        two_fa_code.clone(),
    );
    match challenge_stored(stored) {
        Ok(()) => {},
        Err(e) => {
            return Err(e);
        },
    }
    let sent = email_client.send_email(email, TWO_FA_EMAIL_SUBJECT, two_fa_code.as_ref());
    two_factor_reply(sent, &login_attempt_id)
}

/// Opens a session for `email` at `now`.
fn handle_no_2fa(email: &Email, jwt_secret: &str, now: i64) -> (r: Result<LoginReply, AuthAPIError>)
    ensures
        token_expiry(now) is Some ==> is_session_reply(r, email@, jwt_secret@, now),
        token_expiry(now) is None ==> is_login_failure(r, AuthAPIError::UnexpectedError),
{
    session_reply(generate_auth_cookie_at(email, jwt_secret, now))
}

/// A user whose credentials were checked: the email, and whether a second
/// factor is due.
#[derive(Debug)]
pub struct AuthenticatedUser {
    pub email: Email,
    pub requires_2fa: bool,
}

/// What checking the credentials of a login owes, whatever the user store. A
/// malformed email or a short password is refused as invalid, and nothing
/// else is. No other
/// failures come out than invalid credentials, incorrect credentials and an
/// unexpected error. A success names the submitted email. With a store that
/// keeps to its model: an unknown email and a wrong password are refused
/// alike, as incorrect; any other login succeeds, with the flag of the
/// stored user.
pub open spec fn authenticate_post<U: UserStore>(
    user_store: &U,
    email: Seq<char>,
    password: Seq<char>,
    r: Result<AuthenticatedUser, AuthAPIError>,
) -> bool {
    &&& (!email_address_accepts(email) || !is_acceptable_password(password)) <==> (r matches Err(e)
        && e == AuthAPIError::InvalidCredentials)
    &&& r matches Err(e) ==> e == AuthAPIError::InvalidCredentials || e
        == AuthAPIError::IncorrectCredentials || e == AuthAPIError::UnexpectedError
    &&& r matches Ok(who) ==> who.email@ == email
    &&& (U::obeys_model() && email_address_accepts(email) && is_acceptable_password(password))
        ==> if credentials_match(user_store.users(), email, password) {
        r matches Ok(who) && who.requires_2fa == user_store.users()[email].requires_2fa
    } else {
        r matches Err(e) && e == AuthAPIError::IncorrectCredentials
    }
}

/// What completing the login of a checked user at `now` owes, whatever the
/// challenge store and the email client. The only failure is an unexpected
/// error. A success opens a session for the email at `now`, or asks for a
/// second factor and names a login attempt. With a store that keeps to its
/// model: for a user without a second factor, no challenge changes, and the
/// reply opens a session, or reports an unexpected error where no expiry
/// time can be had; for a user with a second factor, a fresh challenge
/// replaces whatever was pending for the email, its code is sent to the
/// email, and the reply names the challenge's login attempt where the code
/// was delivered.
pub open spec fn complete_login_post<T: TwoFACodeStore, E: EmailClient>(
    before: T,
    email_client: &E,
    email: Seq<char>,
    requires_2fa: bool,
    secret: Seq<char>,
    now: i64,
    after: T,
    r: Result<LoginReply, AuthAPIError>,
) -> bool {
    &&& r matches Err(e) ==> e == AuthAPIError::UnexpectedError
    &&& r is Ok ==> is_session_reply(r, email, secret, now) || is_challenge_reply(r)
    &&& !requires_2fa ==> after == before
    &&& T::obeys_model() ==> if !requires_2fa {
        if token_expiry(now) is Some {
            is_session_reply(r, email, secret, now)
        } else {
            is_login_failure(r, AuthAPIError::UnexpectedError)
        }
    } else {
        &&& after.codes() == before.codes().insert(email, after.codes()[email])
        &&& is_login_attempt_id(after.codes()[email].0)
        &&& is_two_fa_code(after.codes()[email].1)
        &&& match delivery_of(email_client) {
            Some(delivers) => if delivers(email, TWO_FA_EMAIL_SUBJECT@, after.codes()[email].1) {
                is_two_factor_reply(r, after.codes()[email].0)
            } else {
                is_login_failure(r, AuthAPIError::UnexpectedError)
            },
            None => is_two_factor_reply(r, after.codes()[email].0) || is_login_failure(
                r,
                AuthAPIError::UnexpectedError,
            ),
        }
    }
}

/// Checks the credentials of a login: validates the submitted email and
/// password, and has the user store check them and hand out the user.
pub fn authenticate<U: UserStore>(user_store: &U, request: LoginRequest) -> (r: Result<
    AuthenticatedUser,
    AuthAPIError,
>)
    ensures
        authenticate_post(user_store, request.email@, request.password@, r),
{
    let email = match Email::parse(request.email.as_str()) {
        Ok(email) => email,
        Err(_) => {
            return Err(AuthAPIError::InvalidCredentials);
        },
    };
    let password = match Password::parse(request.password.as_str()) {
        Ok(password) => password,
        Err(_) => {
            return Err(AuthAPIError::InvalidCredentials);
        },
    };
    let validated = user_store.validate_user(&email, &password);
    let fetched = match &validated {
        Ok(_) => user_store.get_user(&email),
        Err(error) => {
            return Err(report_credentials_failure(error));
        },
    };
    match checked_user(validated, fetched) {
        Ok(user) => Ok(AuthenticatedUser { email, requires_2fa: user.requires_2fa }),
        Err(e) => Err(e),
    }
}

/// Completes the login of a checked user at the time `now`: opens a session
/// or, for a user with a second factor, starts a challenge.
pub fn complete_login_at<T: TwoFACodeStore, E: EmailClient>(
    who: &AuthenticatedUser,
    two_fa_code_store: &mut T,
    email_client: &E,
    jwt_secret: &str,
    now: i64,
) -> (r: Result<LoginReply, AuthAPIError>)
    ensures
        complete_login_post(
            *old(two_fa_code_store),
            email_client,
            who.email@,
            who.requires_2fa,
            jwt_secret@,
            now,
            *final(two_fa_code_store),
            r,
        ),
{
    if who.requires_2fa {
        handle_2fa(&who.email, two_fa_code_store, email_client)
    } else {
        handle_no_2fa(&who.email, jwt_secret, now)
    }
}

/// Completes the login of a checked user now.
pub fn complete_login<T: TwoFACodeStore, E: EmailClient>(
    who: &AuthenticatedUser,
    two_fa_code_store: &mut T,
    email_client: &E,
    jwt_secret: &str,
) -> (r: Result<LoginReply, AuthAPIError>)
    ensures
        exists|now: i64|
            is_clock_reading(now) && #[trigger] complete_login_post(
                *old(two_fa_code_store),
                email_client,
                who.email@,
                who.requires_2fa,
                jwt_secret@,
                now,
                *final(two_fa_code_store),
                r,
            ),
{
    let now = unix_time_now();
    complete_login_at(who, two_fa_code_store, email_client, jwt_secret, now)
}

/// Logs a user in at the time `now`: checks the credentials, then completes
/// the login.
pub fn post_login_at<U: UserStore, T: TwoFACodeStore, E: EmailClient>(
    user_store: &U,
    two_fa_code_store: &mut T,
    email_client: &E,
    jwt_secret: &str,
    request: LoginRequest,
    now: i64,
) -> (r: Result<LoginReply, AuthAPIError>)
    ensures
        post_login_post(
            user_store,
            *old(two_fa_code_store),
            email_client,
            request.email@,
            request.password@,
            jwt_secret@,
            now,
            *final(two_fa_code_store),
            r,
        ),
{
    let who = match authenticate(user_store, request) {
        Ok(who) => who,
        Err(e) => {
            return Err(e);
        },
    };
    complete_login_at(&who, two_fa_code_store, email_client, jwt_secret, now)
}

/// Logs a user in now.
pub fn post_login<U: UserStore, T: TwoFACodeStore, E: EmailClient>(
    user_store: &U,
    two_fa_code_store: &mut T,
    email_client: &E,
    jwt_secret: &str,
    request: LoginRequest,
) -> (r: Result<LoginReply, AuthAPIError>)
    ensures
        exists|now: i64|
            is_clock_reading(now) && #[trigger] post_login_post(
                user_store,
                *old(two_fa_code_store),
                email_client,
                request.email@,
                request.password@,
                jwt_secret@,
                now,
                *final(two_fa_code_store),
                r,
            ),
{
    let now = unix_time_now();
    post_login_at(user_store, two_fa_code_store, email_client, jwt_secret, request, now)
}

} // verus!
