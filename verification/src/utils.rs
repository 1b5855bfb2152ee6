//! Session tokens and the constants of the service.

pub mod auth;
pub mod constants;
