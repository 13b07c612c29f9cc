//! How banned tokens are named in a key-value service.

use vstd::prelude::*;

verus! {

/// What every key of a banned token starts with, so that the keys do not
/// collide with those of other records.
pub const BANNED_TOKEN_KEY_PREFIX: &'static str = "banned_token:";

/// The key under which `token` is banned.
pub fn get_key(token: &str) -> (key: String)
    ensures
        key@ == BANNED_TOKEN_KEY_PREFIX@ + token@,
{
    String::from_str(BANNED_TOKEN_KEY_PREFIX).concat(token)
}

/// Different tokens have different keys.
pub proof fn lemma_keys_differ(first: Seq<char>, second: Seq<char>)
    requires
        first != second,
    ensures
        BANNED_TOKEN_KEY_PREFIX@ + first != BANNED_TOKEN_KEY_PREFIX@ + second,
{
    let prefix = BANNED_TOKEN_KEY_PREFIX@;
    if prefix + first == prefix + second {
        assert((prefix + first).skip(prefix.len() as int) =~= first);
        assert((prefix + second).skip(prefix.len() as int) =~= second);
    }
}

} // verus!
