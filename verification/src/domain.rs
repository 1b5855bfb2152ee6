//! Value types and capability interfaces of the authentication core.

pub mod data_stores;
pub mod email;
pub mod email_client;
pub mod error;
pub mod login_attempt_id;
pub mod password;
pub mod two_fa_code;
pub mod user;

pub use data_stores::{
    BannedTokenStore, BannedTokenStoreError, TwoFACodeStore, TwoFACodeStoreError, UserStore,
    UserStoreError,
};
pub use email::Email;
pub use email_client::EmailClient;
pub use error::AuthAPIError;
pub use login_attempt_id::LoginAttemptId;
pub use password::Password;
pub use two_fa_code::TwoFACode;
pub use user::User;
