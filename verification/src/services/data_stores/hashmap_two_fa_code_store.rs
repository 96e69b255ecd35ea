//! A challenge store in memory.

use vstd::hash_map::StringHashMap;
use vstd::prelude::*;

use crate::domain::data_stores::{
    ChallengeView,
    LoginAttemptId,
    TwoFACode,
    TwoFACodeStore,
    TwoFACodeStoreError,
    CHALLENGE_TTL_SECONDS,
};
use crate::domain::email::Email;

verus! {

/// One outstanding challenge.
struct Challenge {
    login_attempt_id: LoginAttemptId,
    code: TwoFACode,
    issued_at: u64,
}

impl View for Challenge {
    type V = ChallengeView;

    closed spec fn view(&self) -> ChallengeView {
        ChallengeView {
            login_attempt_id: self.login_attempt_id@,
            code: self.code@,
            issued_at: self.issued_at,
        }
    }
}

/// Challenges in a hash map, by the text of their identity: at most one per
/// identity, the last one issued.
pub struct HashMapTwoFACodeStore {
    codes: StringHashMap<Challenge>,
}

impl Default for HashMapTwoFACodeStore {
    /// The store without challenges.
    fn default() -> (store: Self)
        ensures
            store.codes() == Map::<Seq<char>, ChallengeView>::empty(),
    {
        let store = HashMapTwoFACodeStore { codes: StringHashMap::new() };
        assert(store.codes@.map_values(|challenge: Challenge| challenge@) =~= Map::<
            Seq<char>,
            ChallengeView,
        >::empty());
        store
    }
}

impl TwoFACodeStore for HashMapTwoFACodeStore {
    closed spec fn codes(&self) -> Map<Seq<char>, ChallengeView> {
        self.codes@.map_values(|challenge: Challenge| challenge@)
    }

    /// Memory does not fail.
    open spec fn reliable() -> bool {
        true
    }

    fn add_code(
        &mut self,
        email: Email,
        login_attempt_id: LoginAttemptId,
        code: TwoFACode,
        now: u64,
    ) -> (result: Result<(), TwoFACodeStoreError>) {
        let ghost before = self.codes@;
        let challenge = Challenge { login_attempt_id, code, issued_at: now };
        self.codes.insert(email.as_ref().to_owned(), challenge);
        assert(self.codes@.map_values(|challenge: Challenge| challenge@) =~= before.map_values(
            |challenge: Challenge| challenge@,
        ).insert(email@, challenge@));
        Ok(())
    }

    fn remove_code(&mut self, email: &Email) -> (result: Result<(), TwoFACodeStoreError>) {
        let ghost before = self.codes@;
        self.codes.remove(email.as_ref());
        assert(self.codes@.map_values(|challenge: Challenge| challenge@) =~= before.map_values(
            |challenge: Challenge| challenge@,
        ).remove(email@));
        Ok(())
    }

    fn get_code(&self, email: &Email, now: u64) -> (result: Result<
        (LoginAttemptId, TwoFACode),
        TwoFACodeStoreError,
    >) {
        match self.codes.get(email.as_ref()) {
            Some(challenge) => {
                if now < challenge.issued_at || now - challenge.issued_at < CHALLENGE_TTL_SECONDS {
                    Ok((challenge.login_attempt_id.clone(), challenge.code.clone()))
                } else {
                    Err(TwoFACodeStoreError::LoginAttemptIdNotFound)
                }
            },
            None => Err(TwoFACodeStoreError::LoginAttemptIdNotFound),
        }
    }
}

} // verus!
