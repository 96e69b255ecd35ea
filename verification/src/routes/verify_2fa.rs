//! The second factor: the answer to a challenge.

use vstd::prelude::*;

use crate::domain::data_stores::{
    is_two_fa_code,
    live_challenge,
    uuid_text,
    uuid_value,
    ChallengeView,
    LoginAttemptId,
    TwoFACode,
    TwoFACodeStore,
    TwoFACodeStoreError,
};
use crate::domain::email::{email_format_ok, Email};
use crate::domain::error::AuthAPIError;
use crate::utils::auth::{generate_auth_token, is_issued_token, issued_token};

verus! {

/// What a caller submits to answer a challenge.
pub struct Verify2FARequest {
    /// The identity's text.
    pub email: String,
    /// The challenge's identifier, as the login answered it.
    pub login_attempt_id: String,
    /// The code, as the identity received it.
    pub two_fa_code: String,
}

/// What an answer to a challenge is worth.
pub enum SecondFactorCheck {
    /// The submitted texts are no identity, no identifier or no code.
    Invalid,
    /// The identity has no challenge that can still be answered, or the
    /// identifier or the code is not that challenge's.
    Incorrect,
    /// Identifier and code are those of the identity's live challenge.
    Match,
}

/// What the answer (`login_attempt_id`, `code`) for `email` is worth at
/// `now`, given the challenges held. A missing, a stale and a mismatched
/// challenge are all worth the same.
pub open spec fn second_factor_check(
    codes: Map<Seq<char>, ChallengeView>,
    email: Seq<char>,
    login_attempt_id: Seq<char>,
    code: Seq<char>,
    now: u64,
) -> SecondFactorCheck {
    if !email_format_ok(email) || uuid_value(login_attempt_id) is None || !is_two_fa_code(code) {
        SecondFactorCheck::Invalid
    } else {
        match live_challenge(codes, email, now) {
            Some(challenge) => if challenge.login_attempt_id == uuid_text(
                uuid_value(login_attempt_id)->0,
            ) && challenge.code == code {
                SecondFactorCheck::Match
            } else {
                SecondFactorCheck::Incorrect
            },
            None => SecondFactorCheck::Incorrect,
        }
    }
}

/// What the second factor owes its caller: how the answer `result` and the
/// challenges `after` follow from the challenges `before` and what was
/// submitted at `now`.
///
/// A match consumes the challenge and yields the token issued for the
/// identity at `now`. Whenever the answer is an error, the challenges stay
/// as they were; an unexpected error on a match means that no token could
/// be issued or that the store failed.
pub open spec fn verify_2fa_post<T: TwoFACodeStore>(
    before: Map<Seq<char>, ChallengeView>,
    email: Seq<char>,
    login_attempt_id: Seq<char>,
    code: Seq<char>,
    now: u64,
    secret: Seq<char>,
    result: Result<String, AuthAPIError>,
    after: Map<Seq<char>, ChallengeView>,
) -> bool {
    let store_failed = {
        &&& !T::reliable()
        &&& result matches Err(AuthAPIError::UnexpectedError(_))
        &&& after == before
    };
    match second_factor_check(before, email, login_attempt_id, code, now) {
        SecondFactorCheck::Invalid => {
            &&& result matches Err(AuthAPIError::InvalidCredentials)
            &&& after == before
        },
        SecondFactorCheck::Incorrect => {
            ||| result matches Err(AuthAPIError::IncorrectCredentials) && after == before
            ||| store_failed
        },
        SecondFactorCheck::Match => {
            ||| store_failed
            ||| match issued_token(email, now, secret) {
                Ok(_) => {
                    &&& result matches Ok(text)
                    &&& is_issued_token(text@, email, now, secret)
                    &&& after == before.remove(email)
                },
                Err(e) => {
                    &&& result matches Err(AuthAPIError::UnexpectedError(text))
                    &&& text@ == e.message()
                    &&& after == before
                },
            }
        },
    }
}

/// What the store's word on the identity's challenge means for the answer
/// (`login_attempt_id`, `code`): go on where both are the challenge's, the
/// refusal as incorrect credentials where they are not or where no live
/// challenge was found, and an unexpected error with the store's cause
/// where the store could not say.
pub fn challenge_verdict(
    fetched: Result<(LoginAttemptId, TwoFACode), TwoFACodeStoreError>,
    login_attempt_id: &LoginAttemptId,
    code: &TwoFACode,
) -> (result: Result<(), AuthAPIError>)
    ensures
        match fetched {
            Ok(stored) => if stored.0@ == login_attempt_id@ && stored.1@ == code@ {
                result is Ok
            } else {
                result matches Err(AuthAPIError::IncorrectCredentials)
            },
            Err(TwoFACodeStoreError::UnexpectedError(cause)) => result matches Err(
                AuthAPIError::UnexpectedError(text),
            ) && text@ == cause@,
            Err(_) => result matches Err(AuthAPIError::IncorrectCredentials),
        },
{
    match fetched {
        Ok(stored) => {
            if stored.0 == *login_attempt_id && stored.1 == *code {
                Ok(())
            } else {
                Err(AuthAPIError::IncorrectCredentials)
            }
        },
        Err(TwoFACodeStoreError::UnexpectedError(cause)) => Err(
            AuthAPIError::UnexpectedError(cause),
        ),
        Err(_) => Err(AuthAPIError::IncorrectCredentials),
    }
}

/// What the caller is answered once the store has said whether it
/// withdrew the answered challenge: the token, or an unexpected error with
/// the store's cause.
pub fn consumption_answer(removed: Result<(), TwoFACodeStoreError>, token: String) -> (result:
    Result<String, AuthAPIError>)
    ensures
        match removed {
            Ok(()) => result == Ok::<String, AuthAPIError>(token),
            Err(TwoFACodeStoreError::UnexpectedError(cause)) => result matches Err(
                AuthAPIError::UnexpectedError(text),
            ) && text@ == cause@,
            Err(_) => result matches Err(AuthAPIError::UnexpectedError(_)),
        },
{
    match removed {
        Ok(()) => Ok(token),
        Err(TwoFACodeStoreError::UnexpectedError(cause)) => Err(
            AuthAPIError::UnexpectedError(cause),
        ),
        Err(e) => Err(AuthAPIError::UnexpectedError(e.to_string())),
    }
}

/// Tests the submitted identifier and code against the identity's live
/// challenge and, on a match, consumes the challenge and issues the session
/// token; see [`verify_2fa_post`].
pub fn verify_2fa<T: TwoFACodeStore>(
    two_fa_code_store: &mut T,
    request: Verify2FARequest,
    now: u64,
    secret: &str,
) -> (result: Result<String, AuthAPIError>)
    ensures
        verify_2fa_post::<T>(
            old(two_fa_code_store).codes(),
            request.email@,
            request.login_attempt_id@,
            request.two_fa_code@,
            now,
            secret@,
            result,
            final(two_fa_code_store).codes(),
        ),
{
    let email = match Email::parse(request.email.as_str()) {
        Ok(email) => email,
        Err(_) => {
            return Err(AuthAPIError::InvalidCredentials);
        },
    };
    let login_attempt_id = match LoginAttemptId::parse(request.login_attempt_id) {
        Ok(id) => id,
        Err(_) => {
            return Err(AuthAPIError::InvalidCredentials);
        },
    };
    let two_fa_code = match TwoFACode::parse(request.two_fa_code) {
        Ok(code) => code,
        Err(_) => {
            return Err(AuthAPIError::InvalidCredentials);
        },
    };
    let fetched = two_fa_code_store.get_code(&email, now);
    match challenge_verdict(fetched, &login_attempt_id, &two_fa_code) {
        Ok(()) => {},
        Err(e) => {
            return Err(e);
        },
    }
    let token = match generate_auth_token(&email, now, secret) {
        Ok(token) => token,
        Err(e) => {
            return Err(AuthAPIError::UnexpectedError(e.to_string()));
        },
    };
    consumption_answer(two_fa_code_store.remove_code(&email), token)
}

} // verus!
