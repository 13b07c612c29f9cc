//! The stores that keep everything in memory, and the record formats of
//! the stores that are backed by a key-value service.

pub mod hashmap_two_fa_code_store;
pub mod hashmap_user_store;
pub mod hashset_banned_token_store;
pub mod redis_banned_token_store;
pub mod redis_two_fa_code_store;
