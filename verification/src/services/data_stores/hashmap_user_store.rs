//! A user store that keeps its records in memory.

use vstd::prelude::*;
use vstd::hash_map::StringHashMap;
use crate::domain::data_stores::UserStore;
use crate::domain::data_stores::UserStoreError;
use crate::domain::email::Email;
use crate::domain::password::Password;
use crate::domain::user::User;
use crate::domain::user::UserRecord;
use crate::domain::user::UserRecordView;
use crate::utils::hashing::compute_password_hash;
use crate::utils::hashing::phc_verifies;
use crate::utils::hashing::verify_password_hash;

verus! {

/// Decides whether `password` opens the account whose hash string a store
/// found on record, where `None` says that it found no account.
pub fn check_credentials(hash_on_record: Option<&str>, password: &Password) -> (r: Result<
    (),
    UserStoreError,
>)
    ensures
        match hash_on_record {
            None => r matches Err(UserStoreError::UserNotFound),
            Some(hash) => if phc_verifies(hash@, password@) {
                r is Ok
            } else {
                r matches Err(UserStoreError::InvalidCredentials)
            },
        },
{
    match hash_on_record {
        None => Err(UserStoreError::UserNotFound),
        Some(hash) => {
            if verify_password_hash(hash, password.as_ref()) {
                Ok(())
            } else {
                Err(UserStoreError::InvalidCredentials)
            }
        },
    }
}

struct StoredUser {
    password_hash: String,
    requires_2fa: bool,
}

impl View for StoredUser {
    type V = UserRecordView;

    closed spec fn view(&self) -> UserRecordView {
        UserRecordView { password_hash: self.password_hash@, requires_2fa: self.requires_2fa }
    }
}

/// A user store that keeps its records in a hash map, by the text of the
/// address. It never fails for reasons of its own.
pub struct HashmapUserStore {
    users: StringHashMap<StoredUser>,
}

impl HashmapUserStore {
    /// A store without users.
    pub fn new() -> (store: HashmapUserStore)
        ensures
            store.users() == Map::<Seq<char>, UserRecordView>::empty(),
    {
        let store = HashmapUserStore { users: StringHashMap::new() };
        assert(store.users() =~= Map::<Seq<char>, UserRecordView>::empty());
        store
    }

    /// Registers a user whose password has been through the hasher, given
    /// what the hasher returned.
    ///
    /// An address that is taken is refused. Otherwise a hash is put on
    /// record as it is, and a failure of the hasher is reported as an
    /// unexpected error. Nothing changes unless the user is registered.
    pub fn add_hashed_user(
        &mut self,
        email: Email,
        hashed: Result<String, String>,
        requires_2fa: bool,
    ) -> (r: Result<(), UserStoreError>)
        ensures
            if old(self).users().contains_key(email@) {
                &&& r matches Err(UserStoreError::UserAlreadyExists)
                &&& final(self).users() == old(self).users()
            } else {
                match hashed {
                    Ok(hash) => {
                        &&& r is Ok
                        &&& final(self).users() == old(self).users().insert(
                            email@,
                            UserRecordView { password_hash: hash@, requires_2fa },
                        )
                    },
                    Err(_) => {
                        &&& r matches Err(UserStoreError::UnexpectedError(_))
                        &&& final(self).users() == old(self).users()
                    },
                }
            },
    {
        if self.users.contains_key(email.as_ref()) {
            return Err(UserStoreError::UserAlreadyExists);
        }
        match hashed {
            Ok(password_hash) => {
                let key = String::from_str(email.as_ref());
                self.users.insert(key, StoredUser { password_hash, requires_2fa });
                assert(final(self).users() =~= old(self).users().insert(
                    email@,
                    UserRecordView { password_hash: password_hash@, requires_2fa },
                ));
                Ok(())
            },
            Err(cause) => Err(UserStoreError::UnexpectedError(cause)),
        }
    }
}

impl Default for HashmapUserStore {
    fn default() -> (store: HashmapUserStore)
        ensures
            store.users() == Map::<Seq<char>, UserRecordView>::empty(),
    {
        HashmapUserStore::new()
    }
}

impl UserStore for HashmapUserStore {
    closed spec fn users(&self) -> Map<Seq<char>, UserRecordView> {
        self.users@.map_values(|stored: StoredUser| stored@)
    }

    open spec fn reliable(&self) -> bool {
        true
    }

    fn add_user(&mut self, user: User) -> (r: Result<(), UserStoreError>)
        ensures
            old(self).users().contains_key(user.email@) <==> r matches Err(
                UserStoreError::UserAlreadyExists,
            ),
            r is Err ==> final(self).users() == old(self).users(),
    {
        if self.users.contains_key(user.email.as_ref()) {
            return Err(UserStoreError::UserAlreadyExists);
        }
        let hashed = compute_password_hash(user.password.as_ref());
        self.add_hashed_user(user.email, hashed, user.requires_2fa)
    }

    fn get_user(&self, email: &Email) -> (r: Result<UserRecord, UserStoreError>) {
        match self.users.get(email.as_ref()) {
            Some(stored) => Ok(
                UserRecord {
                    email: email.clone(),
                    password_hash: stored.password_hash.clone(),
                    requires_2fa: stored.requires_2fa,
                },
            ),
            None => Err(UserStoreError::UserNotFound),
        }
    }

    fn validate_user(&self, email: &Email, password: &Password) -> (r: Result<(), UserStoreError>) {
        match self.users.get(email.as_ref()) {
            Some(stored) => check_credentials(Some(stored.password_hash.as_str()), password),
            None => check_credentials(None, password),
        }
    }
}

} // verus!
