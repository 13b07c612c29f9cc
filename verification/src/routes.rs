//! The operations of the service: signup, login, the second factor, logout
//! and the check of a token.
//!
//! Each operation takes the stores it works on and the time of the call,
//! and returns either what the caller gets or the error that the caller is
//! shown.

pub mod login;
pub mod logout;
pub mod signup;
pub mod verify_2fa;
pub mod verify_token;

pub use login::login;
pub use login::LoginOutcome;
pub use login::LoginRequest;
pub use login::LoginResponse;
pub use login::TwoFactorAuthResponse;
pub use logout::logout;
pub use signup::signup;
pub use signup::SignupRequest;
pub use signup::SignupResponse;
pub use verify_2fa::verify_2fa;
pub use verify_2fa::Verify2FARequest;
pub use verify_token::verify_token;
pub use verify_token::TokenRequest;
