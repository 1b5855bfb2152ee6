//! Authentication core of an identity service: credential value types,
//! store capabilities, session tokens, and the signup / login / two-factor /
//! logout workflows, with machine-checked contracts.
//!
//! - `domain`: the value types (`Email`, `Password`, `LoginAttemptId`,
//!   `TwoFACode`, `User`), the failures that callers see, and the capability
//!   interfaces of the stores and of the email client, each with a model.
//! - `services`: the in-memory stores, password hashing, and the computing
//!   parts of a relational user store and of an HTTP email client.
//! - `utils`: session tokens and constants.
//! - `routes`: the five workflows. Each states over the stores' models what it
//!   returns and what it changes.
//! - `laws`: what holds of the workflows in sequence.
//!
//! The library calls outside crates for what it does not do itself: parsing
//! email addresses and UUIDs, random numbers, Argon2, signing and decoding
//! tokens, and the clock. Each such call sits in a small function whose
//! contract is believed, not proved; its doc comment says what is believed.

use vstd::prelude::*;

pub mod domain;
pub mod laws;
pub mod routes;
pub mod services;
pub mod utils;

pub use utils::auth::Claims;

use domain::error::AuthAPIError;

verus! {

/// Body returned with every failure.
#[derive(Debug)]
pub struct ErrorResponse {
    pub error: String,
}

/// How a failure is reported to the caller: its status and a body with its
/// message, and nothing of its cause.
pub fn error_response(error: AuthAPIError) -> (reply: (u16, ErrorResponse))
    ensures
        reply.0 == error.spec_status_code(),
        reply.1.error@ == error.spec_message(),
{
    (error.status_code(), ErrorResponse { error: error.message().to_owned() })
}

} // verus!
