//! A two-factor code store in memory.

use crate::domain::data_stores::{ChallengeView, TwoFACodeStore, TwoFACodeStoreError};
use crate::domain::email::Email;
use crate::domain::login_attempt_id::LoginAttemptId;
use crate::domain::two_fa_code::TwoFACode;
use vstd::hash_map::StringHashMap;
use vstd::prelude::*;

verus! {

/// The pending challenges, in a hash map keyed by email.
pub struct HashmapTwoFACodeStore {
    codes: StringHashMap<(LoginAttemptId, TwoFACode)>,
}

impl HashmapTwoFACodeStore {
    /// A store without challenges.
    pub fn new() -> (store: Self)
        ensures
            store.codes() == Map::<Seq<char>, ChallengeView>::empty(),
    {
        let store = HashmapTwoFACodeStore { codes: StringHashMap::new() };
        assert(store.codes() =~= Map::<Seq<char>, ChallengeView>::empty());
        store
    }
}

impl Default for HashmapTwoFACodeStore {
    fn default() -> (store: Self)
        ensures
            store.codes() == Map::<Seq<char>, ChallengeView>::empty(),
    {
        HashmapTwoFACodeStore::new()
    }
}

impl TwoFACodeStore for HashmapTwoFACodeStore {
    open spec fn obeys_model() -> bool {
        true
    }

    closed spec fn codes(&self) -> Map<Seq<char>, ChallengeView> {
        self.codes@.map_values(|held: (LoginAttemptId, TwoFACode)| (held.0@, held.1@))
    }

    fn add_code(&mut self, email: Email, login_attempt_id: LoginAttemptId, code: TwoFACode) -> (r:
        Result<(), TwoFACodeStoreError>) {
        let key = email.as_ref().to_owned();
        self.codes.insert(key, (login_attempt_id, code));
        assert(self.codes() =~= old(self).codes().insert(email@, (login_attempt_id@, code@)));
        Ok(())
    }

    fn remove_code(&mut self, email: &Email) -> (r: Result<(), TwoFACodeStoreError>) {
        if self.codes.contains_key(email.as_ref()) {
            self.codes.remove(email.as_ref());
            assert(self.codes() =~= old(self).codes().remove(email@));
            Ok(())
        } else {
            Err(TwoFACodeStoreError::LoginAttemptIdNotFound)
        }
    }

    fn get_code(&self, email: &Email) -> (r: Result<(LoginAttemptId, TwoFACode), TwoFACodeStoreError>) {
        match self.codes.get(email.as_ref()) {
            Some(held) => Ok((held.0.clone(), held.1.clone())),
            None => Err(TwoFACodeStoreError::LoginAttemptIdNotFound),
        }
    }
}

} // verus!
