//! The end of a session.

use vstd::prelude::*;
use crate::domain::data_stores::BannedTokenStore;
use crate::domain::error::AuthAPIError;
use crate::utils::auth::token_verdict;
use crate::utils::auth::TokenService;
use crate::utils::auth::TokenVerdict;

verus! {

/// Ends the session that `token` stands for, where the caller presented
/// one.
///
/// Without a token the call is turned down as `MissingToken`. A token that
/// is not valid at the time `now` is turned down as `InvalidToken`. A valid
/// token is banned until the time at which it would have expired anyway,
/// and the caller discards its copy. Nothing is banned unless the call
/// succeeds or the list of banned tokens failed.
pub fn logout<B: BannedTokenStore>(
    banned_token_store: &mut B,
    token_service: &TokenService,
    token: Option<&str>,
    now: u64,
) -> (r: Result<(), AuthAPIError>)
    ensures
        final(banned_token_store).reliable() == old(banned_token_store).reliable(),
        match token {
            None => {
                &&& r matches Err(AuthAPIError::MissingToken)
                &&& final(banned_token_store).banned() == old(banned_token_store).banned()
            },
            Some(text) => {
                let verdict = token_verdict(
                    token_service.secret(),
                    old(banned_token_store).banned(),
                    text@,
                    now,
                );
                match r {
                    Ok(()) => {
                        &&& verdict matches TokenVerdict::Valid(claims)
                        &&& final(banned_token_store).banned() == old(banned_token_store).banned().insert(text@, claims.exp)
                    },
                    Err(AuthAPIError::InvalidToken) => {
                        &&& final(banned_token_store).banned() == old(banned_token_store).banned()
                        &&& old(banned_token_store).reliable() ==> !(verdict is Valid)
                    },
                    Err(AuthAPIError::UnexpectedError(_)) => {
                        &&& verdict is Valid
                        &&& !old(banned_token_store).reliable()
                    },
                    Err(_) => false,
                }
            },
        },
{
    let text = match token {
        Some(text) => text,
        None => {
            return Err(AuthAPIError::MissingToken);
        },
    };
    let claims = match token_service.validate(text, &*banned_token_store, now) {
        Ok(claims) => claims,
        Err(_) => {
            return Err(AuthAPIError::InvalidToken);
        },
    };
    match banned_token_store.store_token(String::from_str(text), claims.exp) {
        Ok(()) => Ok(()),
        Err(e) => Err(AuthAPIError::UnexpectedError(e.into_cause())),
    }
}

} // verus!
