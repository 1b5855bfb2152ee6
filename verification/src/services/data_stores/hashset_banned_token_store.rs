//! A banned-token store in memory.

use crate::domain::data_stores::{BannedTokenStore, BannedTokenStoreError};
use vstd::hash_set::StringHashSet;
use vstd::prelude::*;

verus! {

/// The revoked tokens, in a hash set.
pub struct HashsetBannedTokenStore {
    tokens: StringHashSet,
}

impl HashsetBannedTokenStore {
    /// A store without tokens.
    pub fn new() -> (store: Self)
        ensures
            store.tokens() == Set::<Seq<char>>::empty(),
    {
        HashsetBannedTokenStore { tokens: StringHashSet::new() }
    }
}

impl Default for HashsetBannedTokenStore {
    fn default() -> (store: Self)
        ensures
            store.tokens() == Set::<Seq<char>>::empty(),
    {
        HashsetBannedTokenStore::new()
    }
}

impl BannedTokenStore for HashsetBannedTokenStore {
    open spec fn obeys_model() -> bool {
        true
    }

    closed spec fn tokens(&self) -> Set<Seq<char>> {
        self.tokens@
    }

    fn add_token(&mut self, token: String) -> (r: Result<(), BannedTokenStoreError>) {
        if self.tokens.insert(token) {
            Ok(())
        } else {
            assert(self.tokens@ == old(self).tokens@);
            Err(BannedTokenStoreError::AlreadyExists)
        }
    }

    fn contains_token(&self, token: &str) -> (r: Result<bool, BannedTokenStoreError>) {
        Ok(self.tokens.contains(token))
    }
}

} // verus!
