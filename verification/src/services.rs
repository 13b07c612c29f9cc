//! Implementations of the store contracts and of the e-mail client.

pub mod data_stores;
pub mod mock_email_client;
