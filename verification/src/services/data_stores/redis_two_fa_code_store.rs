//! How pending one-time codes are named and written in a key-value
//! service: the key of an address, and the record that holds the pair of
//! identifier and code.

use vstd::prelude::*;
use crate::domain::data_stores::TwoFACodeStoreError;
use crate::domain::email::Email;
use crate::domain::identifiers::is_two_fa_code;
use crate::domain::identifiers::uuid_canonical_text;
use crate::domain::identifiers::LoginAttemptId;
use crate::domain::identifiers::TwoFACode;

verus! {

/// What every key of a pending code starts with.
pub const TWO_FA_CODE_PREFIX: &'static str = "two_fa_code:";

/// The key under which the pending code of `email` is kept.
pub fn get_key(email: &Email) -> (key: String)
    ensures
        key@ == TWO_FA_CODE_PREFIX@ + email@,
{
    String::from_str(TWO_FA_CODE_PREFIX).concat(email.as_ref())
}

/// The JSON text that `serde_json::to_string` writes for a pair of strings,
/// an array of two strings; `None` where it fails.
pub uninterp spec fn json_pair_text(first: Seq<char>, second: Seq<char>) -> Option<Seq<char>>;

/// The pair of strings that `serde_json::from_str` reads from a JSON text;
/// `None` where the text is no array of two strings.
pub uninterp spec fn json_pair_parse(text: Seq<char>) -> Option<(Seq<char>, Seq<char>)>;

/// Calls `serde_json::to_string` on a pair of strings. The result is named
/// `json_pair_text`; an error is given as its description.
#[verifier::external_body]
fn pair_to_json(first: &str, second: &str) -> (r: Result<String, String>)
    ensures
        match r {
            Ok(text) => json_pair_text(first@, second@) == Some(text@),
            Err(_) => json_pair_text(first@, second@) is None,
        },
{
    match serde_json::to_string(&(first, second)) {
        Ok(text) => Ok(text),
        Err(e) => Err(e.to_string()),
    }
}

/// Calls `serde_json::from_str` for a pair of strings. The result is named
/// `json_pair_parse`; an error is given as its description.
#[verifier::external_body]
fn pair_from_json(text: &str) -> (r: Result<(String, String), String>)
    ensures
        match r {
            Ok((first, second)) => json_pair_parse(text@) == Some((first@, second@)),
            Err(_) => json_pair_parse(text@) is None,
        },
{
    match serde_json::from_str::<(String, String)>(text) {
        Ok(pair) => Ok(pair),
        Err(e) => Err(e.to_string()),
    }
}

/// The record that holds the pair of `login_attempt_id` and `code`.
pub fn encode_two_fa_tuple(login_attempt_id: &LoginAttemptId, code: &TwoFACode) -> (r: Result<
    String,
    TwoFACodeStoreError,
>)
    ensures
        match r {
            Ok(record) => json_pair_text(login_attempt_id@, code@) == Some(record@),
            Err(e) => json_pair_text(login_attempt_id@, code@) is None && e is UnexpectedError,
        },
{
    match pair_to_json(login_attempt_id.as_ref(), code.as_ref()) {
        Ok(record) => Ok(record),
        Err(cause) => Err(TwoFACodeStoreError::UnexpectedError(cause)),
    }
}

/// What a record holds, where it holds a pair of an identifier and a code.
pub open spec fn record_pair(record: Seq<char>) -> Option<(Seq<char>, Seq<char>)> {
    match json_pair_parse(record) {
        Some((first, second)) => match uuid_canonical_text(first) {
            Some(login_attempt_id) => if is_two_fa_code(second) {
                Some((login_attempt_id, second))
            } else {
                None
            },
            None => None,
        },
        None => None,
    }
}

/// Reads a record back. A record that is no pair of strings, or whose
/// parts are no identifier and no code, is an unexpected error: the store
/// holds something that this service did not write.
pub fn decode_two_fa_tuple(record: &str) -> (r: Result<
    (LoginAttemptId, TwoFACode),
    TwoFACodeStoreError,
>)
    ensures
        match r {
            Ok((login_attempt_id, code)) => record_pair(record@) == Some(
                (login_attempt_id@, code@),
            ),
            Err(e) => record_pair(record@) is None && e is UnexpectedError,
        },
{
    let (first, second) = match pair_from_json(record) {
        Ok(pair) => pair,
        Err(cause) => {
            return Err(TwoFACodeStoreError::UnexpectedError(cause));
        },
    };
    let login_attempt_id = match LoginAttemptId::parse(first) {
        Ok(login_attempt_id) => login_attempt_id,
        Err(e) => {
            return Err(TwoFACodeStoreError::UnexpectedError(String::from_str(e.message())));
        },
    };
    let code = match TwoFACode::parse(second) {
        Ok(code) => code,
        Err(e) => {
            return Err(TwoFACodeStoreError::UnexpectedError(String::from_str(e.message())));
        },
    };
    Ok((login_attempt_id, code))
}

} // verus!
