//! A revocation registry in memory.

use vstd::hash_set::StringHashSet;
use vstd::prelude::*;

use crate::domain::data_stores::{BannedTokenStore, BannedTokenStoreError};

verus! {

/// Revoked tokens in a hash set. An entry is never dropped, so it outlives
/// the token it revokes.
pub struct HashSetBannedTokenStore {
    banned_tokens: StringHashSet,
}

impl HashSetBannedTokenStore {
    /// Whether no token is revoked.
    pub fn is_empty(&self) -> (empty: bool)
        ensures
            empty == self.banned().is_empty(),
    {
        self.banned_tokens.is_empty()
    }
}

impl Default for HashSetBannedTokenStore {
    /// The registry without entries.
    fn default() -> (store: Self)
        ensures
            store.banned() == Set::<Seq<char>>::empty(),
    {
        HashSetBannedTokenStore { banned_tokens: StringHashSet::new() }
    }
}

impl BannedTokenStore for HashSetBannedTokenStore {
    closed spec fn banned(&self) -> Set<Seq<char>> {
        self.banned_tokens@
    }

    /// Memory does not fail.
    open spec fn reliable() -> bool {
        true
    }

    fn add_token(&mut self, token: &str) -> (result: Result<(), BannedTokenStoreError>) {
        self.banned_tokens.insert(token.to_owned());
        Ok(())
    }

    fn is_token_banned(&self, token: &str) -> (result: Result<bool, BannedTokenStoreError>) {
        Ok(self.banned_tokens.contains(token))
    }
}

} // verus!
