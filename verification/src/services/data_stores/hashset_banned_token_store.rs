//! A list of banned tokens that is kept in memory.

use vstd::prelude::*;
use vstd::hash_map::StringHashMap;
use crate::domain::data_stores::BannedTokenStore;
use crate::domain::data_stores::BannedTokenStoreError;

verus! {

/// A list of banned tokens in a hash table: each token with the time at
/// which its entry expires. Looking a token up takes constant time. An
/// entry that has expired no longer bans its token. The store never fails
/// for reasons of its own.
pub struct HashsetBannedTokenStore {
    banned_tokens: StringHashMap<u64>,
}

impl HashsetBannedTokenStore {
    /// A list without tokens.
    pub fn new() -> (store: HashsetBannedTokenStore)
        ensures
            store.banned() == Map::<Seq<char>, u64>::empty(),
    {
        HashsetBannedTokenStore { banned_tokens: StringHashMap::new() }
    }
}

impl Default for HashsetBannedTokenStore {
    fn default() -> (store: HashsetBannedTokenStore)
        ensures
            store.banned() == Map::<Seq<char>, u64>::empty(),
    {
        HashsetBannedTokenStore::new()
    }
}

impl BannedTokenStore for HashsetBannedTokenStore {
    closed spec fn banned(&self) -> Map<Seq<char>, u64> {
        self.banned_tokens@
    }

    open spec fn reliable(&self) -> bool {
        true
    }

    fn store_token(&mut self, token: String, expires_at: u64) -> (r: Result<
        (),
        BannedTokenStoreError,
    >) {
        self.banned_tokens.insert(token, expires_at);
        Ok(())
    }

    fn check_banned_token(&self, token: &str, now: u64) -> (r: Result<bool, BannedTokenStoreError>) {
        match self.banned_tokens.get(token) {
            Some(expires_at) => Ok(now < *expires_at),
            None => Ok(false),
        }
    }
}

} // verus!
