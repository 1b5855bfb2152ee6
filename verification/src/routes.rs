//! The five workflows of the service and the payloads they exchange.

pub mod login;
pub mod logout;
pub mod signup;
pub mod verify_2fa;
pub mod verify_token;

pub use login::{LoginRequest, LoginResponse, TwoFactorAuthResponse};
pub use signup::{SignupRequest, SignupResponse};
pub use verify_2fa::Verify2FARequest;
pub use verify_token::VerifyTokenRequest;
