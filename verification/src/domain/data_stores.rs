//! The three store capabilities that the workflows consume, each with a
//! mathematical model of what it holds and a contract for every operation.
//!
//! A store type declares with `obeys_model` whether it keeps to that
//! contract. The default is that it does not: an implementation over a
//! database or a cache, which can fail for reasons of its own, then claims
//! nothing, and nothing is concluded of it.

use crate::domain::email::Email;
use crate::domain::login_attempt_id::LoginAttemptId;
use crate::domain::password::Password;
use crate::domain::two_fa_code::TwoFACode;
use crate::domain::user::{User, UserView};
use crate::services::password_hash::{can_be_hashed, hash_accepts, is_password_hash_of};
use vstd::prelude::*;

verus! {

/// Why a user store refused or failed.
#[derive(Debug)]
pub enum UserStoreError {
    UserAlreadyExists,
    UserNotFound,
    InvalidCredentials,
    /// Anything else, with a description of the cause.
    UnexpectedError(String),
}

impl PartialEq for UserStoreError {
    /// Two errors are equal when they are of the same kind, whatever the
    /// cause of an unexpected one.
    fn eq(&self, other: &Self) -> (r: bool) {
        match (self, other) {
            (UserStoreError::UserAlreadyExists, UserStoreError::UserAlreadyExists) => true,
            (UserStoreError::UserNotFound, UserStoreError::UserNotFound) => true,
            (UserStoreError::InvalidCredentials, UserStoreError::InvalidCredentials) => true,
            (UserStoreError::UnexpectedError(_), UserStoreError::UnexpectedError(_)) => true,
            _ => false,
        }
    }
}

impl vstd::std_specs::cmp::PartialEqSpecImpl for UserStoreError {
    open spec fn obeys_eq_spec() -> bool {
        true
    }

    open spec fn eq_spec(&self, other: &Self) -> bool {
        ||| (self is UserAlreadyExists && other is UserAlreadyExists)
        ||| (self is UserNotFound && other is UserNotFound)
        ||| (self is InvalidCredentials && other is InvalidCredentials)
        ||| (self is UnexpectedError && other is UnexpectedError)
    }
}

/// Why a banned-token store refused or failed.
#[derive(Debug)]
pub enum BannedTokenStoreError {
    AlreadyExists,
    /// Anything else, with a description of the cause.
    UnexpectedError(String),
}

/// Why a two-factor code store refused or failed.
#[derive(Debug)]
pub enum TwoFACodeStoreError {
    LoginAttemptIdNotFound,
    /// Anything else, with a description of the cause.
    UnexpectedError(String),
}

impl PartialEq for TwoFACodeStoreError {
    /// Two errors are equal when they are of the same kind, whatever the
    /// cause of an unexpected one.
    fn eq(&self, other: &Self) -> (r: bool) {
        match (self, other) {
            (
                TwoFACodeStoreError::LoginAttemptIdNotFound,
                TwoFACodeStoreError::LoginAttemptIdNotFound,
            ) => true,
            (TwoFACodeStoreError::UnexpectedError(_), TwoFACodeStoreError::UnexpectedError(_)) => true,
            _ => false,
        }
    }
}

impl vstd::std_specs::cmp::PartialEqSpecImpl for TwoFACodeStoreError {
    open spec fn obeys_eq_spec() -> bool {
        true
    }

    open spec fn eq_spec(&self, other: &Self) -> bool {
        ||| (self is LoginAttemptIdNotFound && other is LoginAttemptIdNotFound)
        ||| (self is UnexpectedError && other is UnexpectedError)
    }
}

/// What `add_user` owes: an email that is present is refused and nothing
/// changes; a new one is either stored, with the Argon2id hash of the
/// submitted password in its place, which accepts that password, or, only
/// where the password is too long to be hashed, the store reports an
/// unexpected error and nothing changes.
pub open spec fn add_user_post(
    before: Map<Seq<char>, UserView>,
    user: UserView,
    after: Map<Seq<char>, UserView>,
    r: Result<(), UserStoreError>,
) -> bool {
    if before.contains_key(user.email) {
        &&& r matches Err(e)
        &&& e is UserAlreadyExists
        &&& after == before
    } else {
        match r {
            Ok(_) => {
                &&& after == before.insert(user.email, after[user.email])
                &&& after[user.email].email == user.email
                &&& after[user.email].requires_2fa == user.requires_2fa
                &&& is_password_hash_of(after[user.email].password, user.password)
                &&& hash_accepts(after[user.email].password, user.password)
            },
            Err(e) => e is UnexpectedError && after == before && !can_be_hashed(user.password),
        }
    }
}

/// What `get_user` owes: the stored record of a present email, `UserNotFound`
/// for an absent one.
pub open spec fn get_user_post(
    users: Map<Seq<char>, UserView>,
    email: Seq<char>,
    r: Result<User, UserStoreError>,
) -> bool {
    match r {
        Ok(user) => users.contains_key(email) && user@ == users[email],
        Err(e) => !users.contains_key(email) && e is UserNotFound,
    }
}

/// What `validate_user` owes: success exactly when the email is present and
/// the stored hash accepts the password.
pub open spec fn validate_user_post(
    users: Map<Seq<char>, UserView>,
    email: Seq<char>,
    password: Seq<char>,
    r: Result<(), UserStoreError>,
) -> bool {
    if !users.contains_key(email) {
        r matches Err(e) && e is UserNotFound
    } else if hash_accepts(users[email].password, password) {
        r is Ok
    } else {
        r matches Err(e) && e is InvalidCredentials
    }
}

/// Holds the user records, at most one per email.
pub trait UserStore {
    /// Whether this type keeps to the contracts below.
    open spec fn obeys_model() -> bool {
        false
    }

    /// The stored records, by email.
    open spec fn users(&self) -> Map<Seq<char>, UserView> {
        Map::empty()
    }

    fn add_user(&mut self, user: User) -> (r: Result<(), UserStoreError>)
        ensures
            Self::obeys_model() ==> add_user_post(
                old(self).users(),
                user@,
                final(self).users(),
                r,
            ),
    ;

    fn get_user(&self, email: &Email) -> (r: Result<User, UserStoreError>)
        ensures
            Self::obeys_model() ==> get_user_post(self.users(), email@, r),
    ;

    fn validate_user(&self, email: &Email, password: &Password) -> (r: Result<
        (),
        UserStoreError,
    >)
        ensures
            Self::obeys_model() ==> validate_user_post(self.users(), email@, password@, r),
    ;
}

/// What `add_token` owes: a token that is present is refused and nothing
/// changes; a new one is added.
pub open spec fn add_token_post(
    before: Set<Seq<char>>,
    token: Seq<char>,
    after: Set<Seq<char>>,
    r: Result<(), BannedTokenStoreError>,
) -> bool {
    if before.contains(token) {
        &&& r matches Err(e)
        &&& e is AlreadyExists
        &&& after == before
    } else {
        r is Ok && after == before.insert(token)
    }
}

/// What `contains_token` owes: whether the token is present.
pub open spec fn contains_token_post(
    tokens: Set<Seq<char>>,
    token: Seq<char>,
    r: Result<bool, BannedTokenStoreError>,
) -> bool {
    r matches Ok(present) && present == tokens.contains(token)
}

/// Holds the session tokens that were revoked.
pub trait BannedTokenStore {
    /// Whether this type keeps to the contracts below.
    open spec fn obeys_model() -> bool {
        false
    }

    /// The revoked tokens.
    open spec fn tokens(&self) -> Set<Seq<char>> {
        Set::empty()
    }

    fn add_token(&mut self, token: String) -> (r: Result<(), BannedTokenStoreError>)
        ensures
            Self::obeys_model() ==> add_token_post(
                old(self).tokens(),
                token@,
                final(self).tokens(),
                r,
            ),
    ;

    fn contains_token(&self, token: &str) -> (r: Result<bool, BannedTokenStoreError>)
        ensures
            Self::obeys_model() ==> contains_token_post(self.tokens(), token@, r),
    ;
}

/// A pending challenge as plain values: the login attempt's identifier and
/// the code.
pub type ChallengeView = (Seq<char>, Seq<char>);

/// What `add_code` owes: the challenge replaces whatever was pending for the
/// email.
pub open spec fn add_code_post(
    before: Map<Seq<char>, ChallengeView>,
    email: Seq<char>,
    login_attempt_id: Seq<char>,
    code: Seq<char>,
    after: Map<Seq<char>, ChallengeView>,
    r: Result<(), TwoFACodeStoreError>,
) -> bool {
    r is Ok && after == before.insert(email, (login_attempt_id, code))
}

/// What `remove_code` owes: a pending challenge is removed; for an email
/// without one the store reports `LoginAttemptIdNotFound` and nothing changes.
pub open spec fn remove_code_post(
    before: Map<Seq<char>, ChallengeView>,
    email: Seq<char>,
    after: Map<Seq<char>, ChallengeView>,
    r: Result<(), TwoFACodeStoreError>,
) -> bool {
    if before.contains_key(email) {
        r is Ok && after == before.remove(email)
    } else {
        &&& r matches Err(e)
        &&& e is LoginAttemptIdNotFound
        &&& after == before
    }
}

/// What `get_code` owes: the pending challenge of the email, or
/// `LoginAttemptIdNotFound` where there is none.
pub open spec fn get_code_post(
    codes: Map<Seq<char>, ChallengeView>,
    email: Seq<char>,
    r: Result<(LoginAttemptId, TwoFACode), TwoFACodeStoreError>,
) -> bool {
    match r {
        Ok(found) => codes.contains_key(email) && (found.0@, found.1@) == codes[email],
        Err(e) => !codes.contains_key(email) && e is LoginAttemptIdNotFound,
    }
}

/// Holds the pending two-factor challenges, at most one per email.
pub trait TwoFACodeStore {
    /// Whether this type keeps to the contracts below.
    open spec fn obeys_model() -> bool {
        false
    }

    /// The pending challenges, by email.
    open spec fn codes(&self) -> Map<Seq<char>, ChallengeView> {
        Map::empty()
    }

    fn add_code(&mut self, email: Email, login_attempt_id: LoginAttemptId, code: TwoFACode) -> (r:
        Result<(), TwoFACodeStoreError>)
        ensures
            Self::obeys_model() ==> add_code_post(
                old(self).codes(),
                email@,
                login_attempt_id@,
                code@,
                final(self).codes(),
                r,
            ),
    ;

    fn remove_code(&mut self, email: &Email) -> (r: Result<(), TwoFACodeStoreError>)
        ensures
            Self::obeys_model() ==> remove_code_post(
                old(self).codes(),
                email@,
                final(self).codes(),
                r,
            ),
    ;

    fn get_code(&self, email: &Email) -> (r: Result<(LoginAttemptId, TwoFACode), TwoFACodeStoreError>)
        ensures
            Self::obeys_model() ==> get_code_post(self.codes(), email@, r),
    ;
}

} // verus!
