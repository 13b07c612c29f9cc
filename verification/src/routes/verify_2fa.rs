//! The second step of a login that asks for a one-time code.

use vstd::prelude::*;
use crate::domain::data_stores::code_matches;
use crate::domain::data_stores::PendingTwoFAView;
use crate::domain::data_stores::TwoFACodeStore;
use crate::domain::email::email_format_ok;
use crate::domain::email::Email;
use crate::domain::error::AuthAPIError;
use crate::domain::identifiers::is_two_fa_code;
use crate::domain::identifiers::uuid_canonical_text;
use crate::domain::identifiers::LoginAttemptId;
use crate::domain::identifiers::TwoFACode;
use crate::domain::token::Token;
use crate::utils::auth::signed_token;
use crate::utils::auth::token_expiry;
use crate::utils::auth::TokenService;

verus! {

/// What a principal sends to complete a login: its address, the identifier
/// that the login returned and the code that it received.
pub struct Verify2FARequest {
    pub email: String,
    pub login_attempt_id: String,
    pub code: String,
}

/// Whether the three parts of a request have the shape asked for.
pub open spec fn verification_well_formed(
    email: Seq<char>,
    login_attempt_id: Seq<char>,
    code: Seq<char>,
) -> bool {
    &&& email_format_ok(email)
    &&& uuid_canonical_text(login_attempt_id) is Some
    &&& is_two_fa_code(code)
}

/// What a verification comes to, as far as the request and the pending
/// codes decide it.
pub enum VerificationVerdict {
    /// The request is not of the shape asked for.
    InvalidCredentials,
    /// No code is pending for the address, or the identifier or the code
    /// is another.
    IncorrectCredentials,
    /// The identifier and the code are the pending pair.
    Accepted,
}

/// The verdict on a verification at the time `now`. The identifier is
/// compared in its canonical form.
pub open spec fn verification_verdict(
    pending: Map<Seq<char>, PendingTwoFAView>,
    email: Seq<char>,
    login_attempt_id: Seq<char>,
    code: Seq<char>,
    now: u64,
) -> VerificationVerdict {
    if !verification_well_formed(email, login_attempt_id, code) {
        VerificationVerdict::InvalidCredentials
    } else if !code_matches(pending, email, uuid_canonical_text(login_attempt_id)->0, code, now) {
        VerificationVerdict::IncorrectCredentials
    } else {
        VerificationVerdict::Accepted
    }
}

/// Completes a login with the one-time code.
///
/// A request that is not of the shape asked for is turned down as
/// `InvalidCredentials`. The identifier and the code are then compared with
/// the pair that is pending for the address at the time `now`: unless both
/// agree the request is turned down as `IncorrectCredentials`, and the
/// pending code stays. On a match the code is removed, so that it cannot be
/// used again, and only then a token is issued. If the code cannot be
/// removed, or the token cannot be signed, no token is handed out and the
/// error is `UnexpectedError`.
pub fn verify_2fa<T: TwoFACodeStore>(
    two_fa_code_store: &mut T,
    token_service: &TokenService,
    request: Verify2FARequest,
    now: u64,
) -> (r: Result<Token, AuthAPIError>)
    ensures
        final(two_fa_code_store).reliable() == old(two_fa_code_store).reliable(),
        ({
            let unchanged = final(two_fa_code_store).pending() == old(two_fa_code_store).pending();
            let removed = final(two_fa_code_store).pending() == old(
                two_fa_code_store,
            ).pending().remove(request.email@);
            let issued = signed_token(
                token_service.secret(),
                request.email@,
                now,
                token_expiry(now, token_service.ttl()),
            );
            match verification_verdict(
                old(two_fa_code_store).pending(),
                request.email@,
                request.login_attempt_id@,
                request.code@,
                now,
            ) {
                VerificationVerdict::InvalidCredentials => {
                    &&& r matches Err(AuthAPIError::InvalidCredentials)
                    &&& unchanged
                },
                VerificationVerdict::IncorrectCredentials => {
                    &&& r matches Err(AuthAPIError::IncorrectCredentials)
                    &&& unchanged
                },
                VerificationVerdict::Accepted => match r {
                    Ok(token) => removed && issued == Some(token@),
                    Err(AuthAPIError::UnexpectedError(_)) => old(two_fa_code_store).reliable()
                        ==> removed && issued is None,
                    Err(AuthAPIError::IncorrectCredentials) => {
                        &&& !old(two_fa_code_store).reliable()
                        &&& unchanged
                    },
                    Err(_) => false,
                },
            }
        }),
{
    let email = match Email::parse(request.email) {
        Ok(email) => email,
        Err(_) => {
            return Err(AuthAPIError::InvalidCredentials);
        },
    };
    let login_attempt_id = match LoginAttemptId::parse(request.login_attempt_id) {
        Ok(login_attempt_id) => login_attempt_id,
        Err(_) => {
            return Err(AuthAPIError::InvalidCredentials);
        },
    };
    let two_fa_code = match TwoFACode::parse(request.code) {
        Ok(two_fa_code) => two_fa_code,
        Err(_) => {
            return Err(AuthAPIError::InvalidCredentials);
        },
    };
    let code_tuple = match two_fa_code_store.get_code(&email, now) {
        Ok(tuple) => tuple,
        Err(_) => {
            return Err(AuthAPIError::IncorrectCredentials);
        },
    };
    if code_tuple.0 != login_attempt_id || code_tuple.1 != two_fa_code {
        return Err(AuthAPIError::IncorrectCredentials);
    }
    match two_fa_code_store.remove_code(&email) {
        Ok(()) => {},
        Err(e) => {
            return Err(AuthAPIError::UnexpectedError(e.into_cause()));
        },
    }
    match token_service.issue(&email, now) {
        Ok(token) => Ok(token),
        Err(e) => Err(AuthAPIError::UnexpectedError(e.into_cause())),
    }
}

} // verus!
