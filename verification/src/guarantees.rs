//! What holds of the service across calls.
//!
//! The contracts of the operations say what one call does to the users on
//! record, the pending codes and the banned tokens. The statements below
//! follow a principal through several calls. They are stated over the same
//! models and predicates as those contracts, and hold of every store that
//! meets its contract.

use vstd::prelude::*;
use crate::domain::data_stores::code_expiry;
use crate::domain::data_stores::registered;
use crate::domain::data_stores::token_banned;
use crate::domain::data_stores::with_code;
use crate::domain::data_stores::PendingTwoFAView;
use crate::domain::email::email_format_ok;
use crate::domain::identifiers::is_login_attempt_id;
use crate::domain::identifiers::is_two_fa_code;
use crate::domain::user::UserRecordView;
use crate::routes::login::login_verdict;
use crate::routes::login::LoginVerdict;
use crate::routes::signup::credentials_well_formed;
use crate::routes::verify_2fa::verification_verdict;
use crate::routes::verify_2fa::VerificationVerdict;
use crate::utils::auth::lemma_issued_token_is_valid;
use crate::utils::auth::signed_token;
use crate::utils::auth::token_verdict;
use crate::utils::auth::ClaimsView;
use crate::utils::auth::TokenVerdict;
use crate::utils::hashing::phc_verifies;
use crate::utils::hex::lemma_hex_value_bound;
use crate::utils::hex::lemma_pow16_sixteen;

verus! {

/// After a signup with an address and a password, a login with the same
/// pair is not turned down: it establishes a session or, for a user with
/// second factor, opens the second factor.
pub proof fn lemma_signup_then_login(
    before: Map<Seq<char>, UserRecordView>,
    after: Map<Seq<char>, UserRecordView>,
    email: Seq<char>,
    password: Seq<char>,
    requires_2fa: bool,
)
    requires
        credentials_well_formed(email, password),
        registered(before, after, email, password, requires_2fa),
    ensures
        login_verdict(after, email, password) == if requires_2fa {
            LoginVerdict::SecondFactorRequired
        } else {
            LoginVerdict::SessionEstablished
        },
{
}

/// After a signup, a login with another password is turned down as
/// incorrect, provided the hasher tells the two passwords apart.
pub proof fn lemma_other_password_is_refused(
    before: Map<Seq<char>, UserRecordView>,
    after: Map<Seq<char>, UserRecordView>,
    email: Seq<char>,
    password: Seq<char>,
    requires_2fa: bool,
    other: Seq<char>,
)
    requires
        registered(before, after, email, password, requires_2fa),
        credentials_well_formed(email, other),
        !phc_verifies(after[email].password_hash, other),
    ensures
        login_verdict(after, email, other) == LoginVerdict::IncorrectCredentials,
{
}

/// A login cannot be used to find out which addresses are registered: an
/// address that is not on record gets the verdict of a wrong password.
pub proof fn lemma_unknown_address_is_not_told_apart(
    users: Map<Seq<char>, UserRecordView>,
    email: Seq<char>,
    password: Seq<char>,
)
    requires
        credentials_well_formed(email, password),
        !users.contains_key(email),
    ensures
        login_verdict(users, email, password) == LoginVerdict::IncorrectCredentials,
{
}

/// A signup changes nothing for the users that were on record: the verdict
/// on a login with another address is what it was.
pub proof fn lemma_signup_keeps_other_users(
    before: Map<Seq<char>, UserRecordView>,
    after: Map<Seq<char>, UserRecordView>,
    email: Seq<char>,
    password: Seq<char>,
    requires_2fa: bool,
    other_email: Seq<char>,
    other_password: Seq<char>,
)
    requires
        registered(before, after, email, password, requires_2fa),
        other_email != email,
    ensures
        login_verdict(after, other_email, other_password) == login_verdict(
            before,
            other_email,
            other_password,
        ),
{
}

/// A one-time code is accepted once: after the verification that accepted
/// it has removed it, the same request is turned down as incorrect, at
/// any time, until a new login stores a new code.
pub proof fn lemma_code_is_accepted_once(
    pending: Map<Seq<char>, PendingTwoFAView>,
    email: Seq<char>,
    login_attempt_id: Seq<char>,
    code: Seq<char>,
    now: u64,
    later: u64,
)
    requires
        verification_verdict(pending, email, login_attempt_id, code, now) is Accepted,
    ensures
        verification_verdict(pending.remove(email), email, login_attempt_id, code, later)
            == VerificationVerdict::IncorrectCredentials,
{
}

/// A second login replaces the code of the first: once the second pair is
/// stored, a verification with the first pair is turned down as incorrect,
/// at any time. The two pairs must differ, in the identifier or in the
/// code.
pub proof fn lemma_second_login_replaces_first_code(
    pending: Map<Seq<char>, PendingTwoFAView>,
    email: Seq<char>,
    first_id: Seq<char>,
    first_code: Seq<char>,
    first_time: u64,
    second_id: Seq<char>,
    second_code: Seq<char>,
    second_time: u64,
    later: u64,
)
    requires
        email_format_ok(email),
        is_login_attempt_id(first_id),
        is_two_fa_code(first_code),
        first_id != second_id || first_code != second_code,
    ensures
        verification_verdict(
            with_code(
                with_code(pending, email, first_id, first_code, first_time),
                email,
                second_id,
                second_code,
                second_time,
            ),
            email,
            first_id,
            first_code,
            later,
        ) == VerificationVerdict::IncorrectCredentials,
{
}

/// The pair of the latest login is accepted as long as it has not expired,
/// and no longer from then on.
pub proof fn lemma_latest_code_is_accepted(
    pending: Map<Seq<char>, PendingTwoFAView>,
    email: Seq<char>,
    login_attempt_id: Seq<char>,
    code: Seq<char>,
    now: u64,
    later: u64,
)
    requires
        email_format_ok(email),
        is_login_attempt_id(login_attempt_id),
        is_two_fa_code(code),
    ensures
        verification_verdict(
            with_code(pending, email, login_attempt_id, code, now),
            email,
            login_attempt_id,
            code,
            later,
        ) == if later < code_expiry(now) {
            VerificationVerdict::Accepted
        } else {
            VerificationVerdict::IncorrectCredentials
        },
{
}

/// The codes of different principals do not touch each other: storing or
/// removing the code of one address changes no verdict for another.
pub proof fn lemma_codes_are_independent(
    pending: Map<Seq<char>, PendingTwoFAView>,
    email: Seq<char>,
    login_attempt_id: Seq<char>,
    code: Seq<char>,
    now: u64,
    other_email: Seq<char>,
    other_id: Seq<char>,
    other_code: Seq<char>,
    later: u64,
)
    requires
        other_email != email,
    ensures
        verification_verdict(
            with_code(pending, email, login_attempt_id, code, now),
            other_email,
            other_id,
            other_code,
            later,
        ) == verification_verdict(pending, other_email, other_id, other_code, later),
        verification_verdict(pending.remove(email), other_email, other_id, other_code, later)
            == verification_verdict(pending, other_email, other_id, other_code, later),
{
}

/// After a logout the token is never valid again, although its signature
/// is intact: while it has not expired it is banned, and from then on it
/// has expired. This holds whatever is banned later, as long as the entry
/// of the token does not expire before the token does.
pub proof fn lemma_logout_revokes_token(
    secret: Seq<u8>,
    banned: Map<Seq<char>, u64>,
    token: Seq<char>,
    now: u64,
    banned_later: Map<Seq<char>, u64>,
    later: u64,
)
    requires
        token_verdict(secret, banned, token, now) is Valid,
        banned_later.contains_key(token),
        banned_later[token] >= token_verdict(secret, banned, token, now)->Valid_0.exp,
    ensures
        !(token_verdict(secret, banned_later, token, later) is Valid),
        later < banned_later[token] ==> token_verdict(secret, banned_later, token, later)
            == TokenVerdict::Revoked,
{
    lemma_hex_value_bound(token.subrange(80, 96));
    lemma_pow16_sixteen();
}

/// The list of banned tokens right after a logout meets the condition of
/// `lemma_logout_revokes_token`: the entry lasts exactly as long as the
/// token.
pub proof fn lemma_logout_entry_outlives_token(
    secret: Seq<u8>,
    banned: Map<Seq<char>, u64>,
    token: Seq<char>,
    now: u64,
    later: u64,
)
    requires
        token_verdict(secret, banned, token, now) is Valid,
    ensures
        !(token_verdict(
            secret,
            banned.insert(token, token_verdict(secret, banned, token, now)->Valid_0.exp),
            token,
            later,
        ) is Valid),
{
    let exp = token_verdict(secret, banned, token, now)->Valid_0.exp;
    lemma_logout_revokes_token(secret, banned, token, now, banned.insert(token, exp), later);
}

/// Banning one token changes the verdict on no other token.
pub proof fn lemma_ban_leaves_other_tokens(
    secret: Seq<u8>,
    banned: Map<Seq<char>, u64>,
    token: Seq<char>,
    expires_at: u64,
    other: Seq<char>,
    now: u64,
)
    requires
        other != token,
    ensures
        token_verdict(secret, banned.insert(token, expires_at), other, now) == token_verdict(
            secret,
            banned,
            other,
            now,
        ),
{
}

/// Issue, then validate: a token that was issued for a subject says that
/// subject, and both of its times, whenever it is validated before it
/// expires and while it is not banned.
pub proof fn lemma_issue_validate_round_trip(
    secret: Seq<u8>,
    banned: Map<Seq<char>, u64>,
    subject: Seq<char>,
    issued_at: u64,
    expires_at: u64,
    now: u64,
)
    requires
        signed_token(secret, subject, issued_at, expires_at) is Some,
        !token_banned(banned, signed_token(secret, subject, issued_at, expires_at)->0, now),
        now < expires_at,
    ensures
        token_verdict(
            secret,
            banned,
            signed_token(secret, subject, issued_at, expires_at)->0,
            now,
        ) == TokenVerdict::Valid(ClaimsView { sub: subject, iat: issued_at, exp: expires_at }),
{
    lemma_issued_token_is_valid(secret, banned, subject, issued_at, expires_at, now);
}

} // verus!
