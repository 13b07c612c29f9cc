//! Credential and session authority: e-mail/password authentication with an
//! optional second factor, signed session tokens and their revocation.
//!
//! - `domain` holds the validated value types, the errors and the contracts
//!   of the stores and of the e-mail client.
//! - `services` holds the stores that keep everything in memory, the record
//!   formats of the stores that are backed by a key-value service, and an
//!   e-mail client that only remembers what it was handed.
//! - `utils` holds password hashing, the token service and the text helpers
//!   they are built from.
//! - `routes` holds the operations: signup, login, the second factor,
//!   logout and the check of a token.
//! - `guarantees` states what holds across several calls.
//!
//! Every function carries a contract that Verus proves. The exceptions are
//! the calls into other crates: each stands in a small function of its own
//! whose contract is stated and not proved, and whose documentation says
//! what is taken on trust. Time is always an explicit argument (`now`, in
//! seconds since the Unix epoch), so an operation is a function of its
//! inputs and of the stores it is handed.

pub mod domain;
pub mod guarantees;
pub mod routes;
pub mod services;
pub mod utils;
