//! A store of one-time codes that keeps them in memory.

use vstd::prelude::*;
use vstd::hash_map::StringHashMap;
use crate::domain::data_stores::code_expiry;
use crate::domain::data_stores::with_code;
use crate::domain::data_stores::PendingTwoFAView;
use crate::domain::data_stores::TwoFACodeStore;
use crate::domain::data_stores::TwoFACodeStoreError;
use crate::domain::data_stores::TEN_MINUTES_IN_SECONDS;
use crate::domain::email::Email;
use crate::domain::identifiers::LoginAttemptId;
use crate::domain::identifiers::TwoFACode;

verus! {

/// A login attempt that awaits its one-time code, as the store keeps it.
pub struct PendingTwoFA {
    pub login_attempt_id: LoginAttemptId,
    pub code: TwoFACode,
    /// The time from which the code is no longer accepted.
    pub expires_at: u64,
}

impl View for PendingTwoFA {
    type V = PendingTwoFAView;

    open spec fn view(&self) -> PendingTwoFAView {
        PendingTwoFAView {
            login_attempt_id: self.login_attempt_id@,
            code: self.code@,
            expires_at: self.expires_at,
        }
    }
}

/// The time at which a code issued at `now` expires.
pub fn expiry_of_code(now: u64) -> (expires_at: u64)
    ensures
        expires_at == code_expiry(now),
{
    if now > u64::MAX - TEN_MINUTES_IN_SECONDS {
        u64::MAX
    } else {
        now + TEN_MINUTES_IN_SECONDS
    }
}

/// A store of one-time codes in a hash map, by the text of the address. An
/// entry that has expired stays in the map until it is replaced or removed,
/// and is never handed out. The store never fails for reasons of its own.
pub struct HashmapTwoFACodeStore {
    codes: StringHashMap<PendingTwoFA>,
}

impl HashmapTwoFACodeStore {
    /// A store without pending codes.
    pub fn new() -> (store: HashmapTwoFACodeStore)
        ensures
            store.pending() == Map::<Seq<char>, PendingTwoFAView>::empty(),
    {
        let store = HashmapTwoFACodeStore { codes: StringHashMap::new() };
        assert(store.pending() =~= Map::<Seq<char>, PendingTwoFAView>::empty());
        store
    }
}

impl Default for HashmapTwoFACodeStore {
    fn default() -> (store: HashmapTwoFACodeStore)
        ensures
            store.pending() == Map::<Seq<char>, PendingTwoFAView>::empty(),
    {
        HashmapTwoFACodeStore::new()
    }
}

impl TwoFACodeStore for HashmapTwoFACodeStore {
    closed spec fn pending(&self) -> Map<Seq<char>, PendingTwoFAView> {
        self.codes@.map_values(|entry: PendingTwoFA| entry@)
    }

    open spec fn reliable(&self) -> bool {
        true
    }

    fn add_code(
        &mut self,
        email: Email,
        login_attempt_id: LoginAttemptId,
        code: TwoFACode,
        now: u64,
    ) -> (r: Result<(), TwoFACodeStoreError>) {
        let key = String::from_str(email.as_ref());
        let entry = PendingTwoFA { login_attempt_id, code, expires_at: expiry_of_code(now) };
        self.codes.insert(key, entry);
        assert(final(self).pending() =~= with_code(
            old(self).pending(),
            email@,
            login_attempt_id@,
            code@,
            now,
        ));
        Ok(())
    }

    fn remove_code(&mut self, email: &Email) -> (r: Result<(), TwoFACodeStoreError>) {
        self.codes.remove(email.as_ref());
        assert(final(self).pending() =~= old(self).pending().remove(email@));
        Ok(())
    }

    fn get_code(&self, email: &Email, now: u64) -> (r: Result<
        (LoginAttemptId, TwoFACode),
        TwoFACodeStoreError,
    >) {
        match self.codes.get(email.as_ref()) {
            Some(entry) => {
                if now < entry.expires_at {
                    Ok((entry.login_attempt_id.clone(), entry.code.clone()))
                } else {
                    Err(TwoFACodeStoreError::LoginAttemptIdNotFound)
                }
            },
            None => Err(TwoFACodeStoreError::LoginAttemptIdNotFound),
        }
    }
}

} // verus!
