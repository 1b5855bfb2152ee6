//! A user store in memory. As any user store, it keeps the hash of a
//! password, never the password.

use crate::domain::data_stores::{UserStore, UserStoreError};
use crate::domain::email::Email;
use crate::domain::password::Password;
use crate::domain::user::{User, UserView};
use crate::services::data_stores::postgres_user_store::{
    user_from_row, user_row, validate_stored_user,
};
use vstd::hash_map::StringHashMap;
use vstd::prelude::*;

verus! {

/// The user records, in a hash map keyed by email.
pub struct HashmapUserStore {
    users: StringHashMap<User>,
}

impl HashmapUserStore {
    /// A store without users.
    pub fn new() -> (store: Self)
        ensures
            store.users() == Map::<Seq<char>, UserView>::empty(),
    {
        let store = HashmapUserStore { users: StringHashMap::new() };
        assert(store.users() =~= Map::<Seq<char>, UserView>::empty());
        store
    }

    /// How many users the store holds.
    pub fn len(&self) -> (n: usize)
        ensures
            n == self.users().len(),
    {
        assert(self.users().dom() =~= self.users@.dom());
        self.users.len()
    }
}

impl Default for HashmapUserStore {
    fn default() -> (store: Self)
        ensures
            store.users() == Map::<Seq<char>, UserView>::empty(),
    {
        HashmapUserStore::new()
    }
}

impl UserStore for HashmapUserStore {
    open spec fn obeys_model() -> bool {
        true
    }

    closed spec fn users(&self) -> Map<Seq<char>, UserView> {
        self.users@.map_values(|held: User| held@)
    }

    fn add_user(&mut self, user: User) -> (r: Result<(), UserStoreError>) {
        if self.users.contains_key(user.email.as_ref()) {
            return Err(UserStoreError::UserAlreadyExists);
        }
        let row = match user_row(&user) {
            Ok(row) => row,
            Err(e) => {
                return Err(e);
            },
        };
        let held = match user_from_row(row) {
            Ok(held) => held,
            Err(e) => {
                return Err(e);
            },
        };
        let key = user.email.as_ref().to_owned();
        self.users.insert(key, held);
        assert(self.users() =~= old(self).users().insert(user.email@, held@));
        Ok(())
    }

    fn get_user(&self, email: &Email) -> (r: Result<User, UserStoreError>) {
        match self.users.get(email.as_ref()) {
            Some(held) => Ok(held.clone()),
            None => Err(UserStoreError::UserNotFound),
        }
    }

    fn validate_user(&self, email: &Email, password: &Password) -> (r: Result<(), UserStoreError>) {
        match self.users.get(email.as_ref()) {
            Some(held) => validate_stored_user(held, password),
            None => Err(UserStoreError::UserNotFound),
        }
    }
}

} // verus!
