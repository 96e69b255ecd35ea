//! A credential store in memory.

use vstd::hash_map::StringHashMap;
use vstd::prelude::*;

use crate::domain::data_stores::{UserStore, UserStoreError};
use crate::domain::email::Email;
use crate::domain::password::byte_len;
use crate::domain::user::{User, UserView};
use crate::services::data_stores::password_hash::{
    compute_password_hash,
    hash_accepts,
    made_at_configured_cost,
    verify_password_hash,
    MAX_PASSWORD_BYTES,
};

verus! {

/// Credential records in a hash map, by the text of their identity. A
/// record holds an Argon2 hash in place of the password it was registered
/// with.
pub struct HashMapUserStore {
    users: StringHashMap<User>,
}

/// The record that a store keeps for `user` once its password is hashed to
/// `hash`.
pub open spec fn hashed_record(user: UserView, hash: Seq<char>) -> UserView {
    UserView { email: user.email, password: hash, requires_2fa: user.requires_2fa }
}

impl HashMapUserStore {
    /// The number of records.
    pub fn len(&self) -> (count: usize)
        ensures
            count == self.users().len(),
    {
        broadcast use vstd::hash_map::group_hash_map_axioms;

        assert(self.users().dom() =~= self.users@.dom());
        self.users.len()
    }

    /// Registers `user` with the hasher's answer `hashed`, which the caller
    /// computed beforehand with [`compute_password_hash`] on the user's
    /// password, so that no hash is computed while the store is held. A
    /// taken identity is refused as existing, whatever the hasher said; a
    /// free one is recorded as [`Self::record`] says.
    pub fn add_hashed_user(&mut self, user: &User, hashed: Result<String, String>) -> (result:
        Result<(), UserStoreError>)
        ensures
            if old(self).users().contains_key(user@.email) {
                &&& result matches Err(UserStoreError::UserAlreadyExists)
                &&& final(self).users() == old(self).users()
            } else {
                match hashed {
                    Ok(hash) => {
                        &&& result is Ok
                        &&& final(self).users() == old(self).users().insert(
                            user@.email,
                            hashed_record(user@, hash@),
                        )
                    },
                    Err(cause) => {
                        &&& result matches Err(UserStoreError::UnexpectedError(text))
                        &&& text@ == cause@
                        &&& final(self).users() == old(self).users()
                    },
                }
            },
    {
        if self.users.contains_key(user.email()) {
            return Err(UserStoreError::UserAlreadyExists);
        }
        self.record(user, hashed)
    }

    /// Records `user` under its identity, in place of any record there, with
    /// the hasher's answer `hashed` as its secret. The record is made
    /// exactly when the hasher gave a hash; otherwise nothing changes and
    /// the answer is an unexpected error with the hasher's cause.
    pub fn record(&mut self, user: &User, hashed: Result<String, String>) -> (result: Result<
        (),
        UserStoreError,
    >)
        ensures
            match hashed {
                Ok(hash) => {
                    &&& result is Ok
                    &&& final(self).users() == old(self).users().insert(
                        user@.email,
                        hashed_record(user@, hash@),
                    )
                },
                Err(cause) => {
                    &&& result matches Err(UserStoreError::UnexpectedError(text))
                    &&& text@ == cause@
                    &&& final(self).users() == old(self).users()
                },
            },
    {
        let hash = match hashed {
            Ok(hash) => hash,
            Err(cause) => {
                return Err(UserStoreError::UnexpectedError(cause));
            },
        };
        let stored = User::with_hash(user.identity().clone(), hash, user.requires_2fa());
        let ghost before = self.users@;
        self.users.insert(user.email().to_owned(), stored);
        assert(self.users@.map_values(|user: User| user@) =~= before.map_values(
            |user: User| user@,
        ).insert(user@.email, stored@));
        Ok(())
    }
}

impl Default for HashMapUserStore {
    /// The store without records.
    fn default() -> (store: Self)
        ensures
            store.users() == Map::<Seq<char>, UserView>::empty(),
    {
        let store = HashMapUserStore { users: StringHashMap::new() };
        assert(store.users@.map_values(|user: User| user@) =~= Map::<Seq<char>, UserView>::empty());
        store
    }
}

impl UserStore for HashMapUserStore {
    closed spec fn users(&self) -> Map<Seq<char>, UserView> {
        self.users@.map_values(|user: User| user@)
    }

    /// Argon2 decides: the store keeps PHC strings, and takes a candidate
    /// for one whose costs are allowed and for which Argon2 accepts it.
    open spec fn accepts(stored: Seq<char>, candidate: Seq<char>) -> bool {
        hash_accepts(stored, candidate)
    }

    /// Memory does not fail.
    open spec fn reliable() -> bool {
        true
    }

    /// Every password that Argon2 can hash.
    open spec fn takes(password: Seq<char>) -> bool {
        byte_len(password) <= MAX_PASSWORD_BYTES
    }

    /// The secret kept is an Argon2id hash of the password, made at the
    /// configured cost.
    fn add_user(&mut self, user: User) -> (result: Result<(), UserStoreError>)
        ensures
            result is Ok ==> made_at_configured_cost(final(self).users()[user@.email].password),
    {
        if self.users.contains_key(user.email()) {
            return Err(UserStoreError::UserAlreadyExists);
        }
        let hashed = compute_password_hash(user.password());
        self.add_hashed_user(&user, hashed)
    }

    fn get_user(&self, email: &Email) -> (result: Result<User, UserStoreError>) {
        match self.users.get(email.as_ref()) {
            Some(user) => Ok(user.clone()),
            None => Err(UserStoreError::UserNotFound),
        }
    }

    fn validate_user(&self, email: &Email, password: &str) -> (result: Result<
        (),
        UserStoreError,
    >) {
        match self.users.get(email.as_ref()) {
            Some(user) => match verify_password_hash(user.password(), password) {
                Ok(()) => Ok(()),
                Err(_) => Err(UserStoreError::InvalidCredentials),
            },
            None => Err(UserStoreError::UserNotFound),
        }
    }
}

} // verus!
