//! The computing parts of a user store over a relational table `users`
//! (email, password_hash, requires_2fa): what is written to a row, what a row
//! read back stands for, and how a failed insert is classified. Talking to
//! the database is left to the caller.

use crate::domain::data_stores::UserStoreError;
use crate::domain::email::{email_address_accepts, Email};
use crate::domain::password::{is_acceptable_password, Password};
use crate::domain::user::{User, UserView};
use crate::services::password_hash::{
    can_be_hashed, compute_password_hash, hash_accepts, is_password_hash_of,
    verify_password_hash,
};
use vstd::prelude::*;

verus! {

/// The error code with which PostgreSQL reports a violated unique
/// constraint.
pub const UNIQUE_VIOLATION: &'static str = "23505";

/// The values of one row of the table.
#[derive(Debug)]
pub struct UserRow {
    pub email: String,
    pub password_hash: String,
    pub requires_2fa: bool,
}

/// Whether two texts are the same.
fn same_text(a: &str, b: &str) -> (same: bool)
    ensures
        same == (a@ == b@),
{
    a.to_owned() == b.to_owned()
}

/// The row to insert for `user`: the email and the flag as they are, and in
/// the place of the password its Argon2id hash with the fixed costs under a
/// fresh salt, which accepts the password. Fails, unexpectedly, only where
/// the password is too long for Argon2.
pub fn user_row(user: &User) -> (r: Result<UserRow, UserStoreError>)
    ensures
        can_be_hashed(user.password@) ==> r is Ok,
        r matches Ok(row) ==> {
            &&& row.email@ == user.email@
            &&& row.requires_2fa == user.requires_2fa
            &&& is_password_hash_of(row.password_hash@, user.password@)
            &&& hash_accepts(row.password_hash@, user.password@)
            &&& is_acceptable_password(row.password_hash@)
        },
        r matches Err(e) ==> e is UnexpectedError,
{
    match compute_password_hash(user.password.as_ref()) {
        Ok(password_hash) => Ok(
            UserRow {
                email: user.email.as_ref().to_owned(),
                password_hash,
                requires_2fa: user.requires_2fa,
            },
        ),
        Err(_) => Err(UserStoreError::UnexpectedError("failed to hash password".to_owned())),
    }
}

/// How a failed insert is reported, given the error code of the database
/// where it sent one: a violated unique constraint means that the user
/// exists; anything else is unexpected, with `description` as its cause.
pub fn insert_failure(code: Option<&str>, description: String) -> (e: UserStoreError)
    ensures
        (code matches Some(c) && c@ == UNIQUE_VIOLATION@) ==> e is UserAlreadyExists,
        !(code matches Some(c) && c@ == UNIQUE_VIOLATION@) ==> e is UnexpectedError
            && e->UnexpectedError_0 == description,
{
    match code {
        Some(c) => {
            if same_text(c, UNIQUE_VIOLATION) {
                UserStoreError::UserAlreadyExists
            } else {
                UserStoreError::UnexpectedError(description)
            }
        },
        None => UserStoreError::UnexpectedError(description),
    }
}

/// The user that a row stands for, with the stored hash in the place of the
/// password. A row whose email is no email, or whose hash is shorter than a
/// password, is reported as an unexpected error.
pub fn user_from_row(row: UserRow) -> (r: Result<User, UserStoreError>)
    ensures
        email_address_accepts(row.email@) && is_acceptable_password(row.password_hash@) ==> {
            &&& r matches Ok(user)
            &&& user@ == UserView {
                email: row.email@,
                password: row.password_hash@,
                requires_2fa: row.requires_2fa,
            }
        },
        !(email_address_accepts(row.email@) && is_acceptable_password(row.password_hash@)) ==> (r
            matches Err(e) && e is UnexpectedError),
{
    let email = match Email::parse(row.email.as_str()) {
        Ok(email) => email,
        Err(message) => {
            return Err(UserStoreError::UnexpectedError(message));
        },
    };
    let password = match Password::parse(row.password_hash.as_str()) {
        Ok(password) => password,
        Err(message) => {
            return Err(UserStoreError::UnexpectedError(message));
        },
    };
    Ok(User::new(email, password, row.requires_2fa))
}

/// Checks a submitted password against a stored user: succeeds exactly when
/// the stored hash accepts the password, and reports invalid credentials
/// otherwise.
pub fn validate_stored_user(stored: &User, password: &Password) -> (r: Result<(), UserStoreError>)
    ensures
        hash_accepts(stored.password@, password@) ==> r is Ok,
        !hash_accepts(stored.password@, password@) ==> (r matches Err(e)
            && e is InvalidCredentials),
{
    match verify_password_hash(stored.password.as_ref(), password.as_ref()) {
        Ok(()) => Ok(()),
        Err(_) => Err(UserStoreError::InvalidCredentials),
    }
}

} // verus!
