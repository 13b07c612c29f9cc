//! Building blocks shared by the domain types, the stores and the routes.

pub mod auth;
pub mod hashing;
pub mod hex;
pub mod text;
