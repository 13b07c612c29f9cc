//! The check that resource servers make before they honour a token.

use vstd::prelude::*;
use crate::domain::data_stores::BannedTokenStore;
use crate::domain::error::AuthAPIError;
use crate::utils::auth::token_verdict;
use crate::utils::auth::Claims;
use crate::utils::auth::TokenService;
use crate::utils::auth::TokenVerdict;

verus! {

/// The token that a resource server asks about.
pub struct TokenRequest {
    pub token: String,
}

/// Says what the token of `request` claims, where it is valid at the time
/// `now`. Every other token is turned down as `InvalidToken`, whatever the
/// reason: the caller is not told why.
pub fn verify_token<B: BannedTokenStore>(
    banned_token_store: &B,
    token_service: &TokenService,
    request: TokenRequest,
    now: u64,
) -> (r: Result<Claims, AuthAPIError>)
    ensures
        match r {
            Ok(claims) => token_verdict(
                token_service.secret(),
                banned_token_store.banned(),
                request.token@,
                now,
            ) == TokenVerdict::Valid(claims@),
            Err(AuthAPIError::InvalidToken) => banned_token_store.reliable() ==> !(token_verdict(
                token_service.secret(),
                banned_token_store.banned(),
                request.token@,
                now,
            ) is Valid),
            Err(_) => false,
        },
{
    match token_service.validate(request.token.as_str(), banned_token_store, now) {
        Ok(claims) => Ok(claims),
        Err(_) => Err(AuthAPIError::InvalidToken),
    }
}

} // verus!
