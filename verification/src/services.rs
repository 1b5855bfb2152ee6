//! Implementations behind the capability interfaces, and the computing parts
//! of those that live outside this library.

pub mod data_stores;
pub mod mock_email_client;
pub mod password_hash;
pub mod resend_email_client;

pub use data_stores::{HashmapTwoFACodeStore, HashmapUserStore, HashsetBannedTokenStore};
pub use mock_email_client::MockEmailClient;
