//! Signup: create a user record from submitted credentials.

use crate::domain::data_stores::{UserStore, UserStoreError};
use crate::domain::email::{email_address_accepts, Email};
use crate::domain::error::AuthAPIError;
use crate::domain::password::{is_acceptable_password, Password};
use crate::domain::user::{User, UserView};
use crate::services::password_hash::{can_be_hashed, hash_accepts, is_password_hash_of};
use vstd::prelude::*;

verus! {

/// Status of a successful signup: created.
pub const SIGNUP_STATUS: u16 = 201;

/// What a client submits to sign up.
pub struct SignupRequest {
    pub email: String,
    pub password: String,
    pub requires_2fa: bool,
}

/// Confirmation returned after a signup.
#[derive(PartialEq, Eq, Debug)]
pub struct SignupResponse {
    pub message: String,
}

/// Whether `r` confirms a signup: status 201 and the fixed message.
pub open spec fn is_signup_confirmation(r: Result<(u16, SignupResponse), AuthAPIError>) -> bool {
    &&& r matches Ok(reply)
    &&& reply.0 == SIGNUP_STATUS
    &&& reply.1.message@ == "User created successfully"@
}

/// Whether `r` is the failure `error`.
pub open spec fn is_signup_failure(
    r: Result<(u16, SignupResponse), AuthAPIError>,
    error: AuthAPIError,
) -> bool {
    r matches Err(e) && e == error
}

/// What a signup owes, over the users held before and after. A malformed
/// email or a short password is refused as invalid, and an email that has a
/// user as existing, with nothing changed. Otherwise the user is either
/// stored, with the flag as submitted and the Argon2id hash of the submitted
/// password, which accepts that password; or, only where the password is too
/// long to be hashed, an unexpected error is reported and nothing changes.
pub open spec fn signup_post(
    before: Map<Seq<char>, UserView>,
    email: Seq<char>,
    password: Seq<char>,
    requires_2fa: bool,
    after: Map<Seq<char>, UserView>,
    r: Result<(u16, SignupResponse), AuthAPIError>,
) -> bool {
    if !email_address_accepts(email) || !is_acceptable_password(password) {
        is_signup_failure(r, AuthAPIError::InvalidCredentials) && after == before
    } else if before.contains_key(email) {
        is_signup_failure(r, AuthAPIError::UserAlreadyExists) && after == before
    } else if r is Ok {
        &&& is_signup_confirmation(r)
        &&& after == before.insert(email, after[email])
        &&& after[email].email == email
        &&& after[email].requires_2fa == requires_2fa
        &&& is_password_hash_of(after[email].password, password)
        &&& hash_accepts(after[email].password, password)
    } else {
        &&& is_signup_failure(r, AuthAPIError::UnexpectedError)
        &&& after == before
        &&& !can_be_hashed(password)
    }
}

/// The reply to a signup, given what the user store answered: confirmation
/// where the user was added, `UserAlreadyExists` where the store said so, and
/// `UnexpectedError` for any other failure.
pub fn signup_response(added: Result<(), UserStoreError>) -> (r: Result<
    (u16, SignupResponse),
    AuthAPIError,
>)
    ensures
        added is Ok ==> is_signup_confirmation(r),
        (added matches Err(e) && e is UserAlreadyExists) ==> is_signup_failure(
            r,
            AuthAPIError::UserAlreadyExists,
        ),
        (added matches Err(e) && !(e is UserAlreadyExists)) ==> is_signup_failure(
            r,
            AuthAPIError::UnexpectedError,
        ),
{
    match added {
        Ok(()) => Ok(
            (SIGNUP_STATUS, SignupResponse { message: "User created successfully".to_owned() }),
        ),
        Err(UserStoreError::UserAlreadyExists) => Err(AuthAPIError::UserAlreadyExists),
        Err(_) => Err(AuthAPIError::UnexpectedError),
    }
}

/// Signs a user up: validates the submitted email and password, then asks the
/// user store to add the user.
pub fn signup<U: UserStore>(user_store: &mut U, request: SignupRequest) -> (r: Result<
    (u16, SignupResponse),
    AuthAPIError,
>)
    ensures
        !email_address_accepts(request.email@) || !is_acceptable_password(request.password@) ==> {
            &&& is_signup_failure(r, AuthAPIError::InvalidCredentials)
            &&& *final(user_store) == *old(user_store)
        },
        email_address_accepts(request.email@) && is_acceptable_password(request.password@)
            ==> !is_signup_failure(r, AuthAPIError::InvalidCredentials),
        r is Ok ==> is_signup_confirmation(r),
        r matches Err(e) ==> e == AuthAPIError::InvalidCredentials || e
            == AuthAPIError::UserAlreadyExists || e == AuthAPIError::UnexpectedError,
        U::obeys_model() ==> signup_post(
            old(user_store).users(),
            request.email@,
            request.password@,
            request.requires_2fa,
            final(user_store).users(),
            r,
        ),
{
    let email = match Email::parse(request.email.as_str()) {
        Ok(email) => email,
        Err(_) => {
            return Err(AuthAPIError::InvalidCredentials);
        },
    };
    let password = match Password::parse(request.password.as_str()) {
        Ok(password) => password,
        Err(_) => {
            return Err(AuthAPIError::InvalidCredentials);
        },
    };
    let user = User::new(email, password, request.requires_2fa);
    let added = user_store.add_user(user);
    signup_response(added)
}

} // verus!
