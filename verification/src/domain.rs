//! The validated value types of the service and the contracts of its stores.

pub mod data_stores;
pub mod email;
pub mod email_client;
pub mod error;
pub mod identifiers;
pub mod password;
pub mod token;
pub mod user;

pub use email::Email;
pub use email::InvalidEmail;
pub use email_client::EmailClient;
pub use error::AuthAPIError;
pub use identifiers::IdentifierError;
pub use identifiers::LoginAttemptId;
pub use identifiers::TwoFACode;
pub use password::Password;
pub use password::PasswordError;
pub use token::Token;
pub use user::User;
pub use user::UserRecord;
