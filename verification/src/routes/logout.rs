//! Logout: the revocation of the presented token.

use vstd::prelude::*;

use crate::domain::data_stores::{BannedTokenStore, BannedTokenStoreError};
use crate::domain::error::AuthAPIError;
use crate::routes::verify_token::{registry_verdict, session_live};
use crate::utils::auth::{token_valid, validate_token};

verus! {

/// What logout owes its caller: how the answer `result` and the registry
/// `after` follow from the registry `before` and the token presented at
/// `now`.
///
/// Without a token nothing can be revoked. A token that proves no session,
/// because it is malformed, expired or revoked already, is refused. One
/// that does is revoked. Whenever the answer is an error, the registry
/// stays as it was.
pub open spec fn logout_post<B: BannedTokenStore>(
    before: Set<Seq<char>>,
    token: Option<Seq<char>>,
    now: u64,
    secret: Seq<char>,
    result: Result<(), AuthAPIError>,
    after: Set<Seq<char>>,
) -> bool {
    match result {
        Ok(()) => {
            &&& token matches Some(text)
            &&& session_live(before, text, now, secret)
            &&& after == before.insert(text)
        },
        Err(AuthAPIError::MissingToken) => token is None && after == before,
        Err(AuthAPIError::InvalidToken) => {
            &&& token matches Some(text)
            &&& !session_live(before, text, now, secret)
            &&& after == before
        },
        Err(AuthAPIError::UnexpectedError(_)) => {
            &&& !B::reliable()
            &&& token matches Some(text)
            &&& token_valid(text, now, secret)
            &&& after == before
        },
        Err(_) => false,
    }
}

/// The text of the token presented, if one is.
pub open spec fn presented(token: Option<&str>) -> Option<Seq<char>> {
    match token {
        Some(text) => Some(text@),
        None => None,
    }
}

/// What the caller is answered once the registry has said whether it took
/// the revocation: success, or an unexpected error with the registry's
/// cause.
pub fn revocation_answer(revoked: Result<(), BannedTokenStoreError>) -> (result: Result<
    (),
    AuthAPIError,
>)
    ensures
        match revoked {
            Ok(()) => result is Ok,
            Err(BannedTokenStoreError::UnexpectedError(cause)) => result matches Err(
                AuthAPIError::UnexpectedError(text),
            ) && text@ == cause@,
        },
{
    match revoked {
        Ok(()) => Ok(()),
        Err(BannedTokenStoreError::UnexpectedError(cause)) => Err(
            AuthAPIError::UnexpectedError(cause),
        ),
    }
}

/// Revokes the presented token, after checking that it proves a session at
/// `now`; see [`logout_post`].
pub fn logout<B: BannedTokenStore>(
    banned_token_store: &mut B,
    token: Option<&str>,
    now: u64,
    secret: &str,
) -> (result: Result<(), AuthAPIError>)
    ensures
        logout_post::<B>(
            old(banned_token_store).banned(),
            presented(token),
            now,
            secret@,
            result,
            final(banned_token_store).banned(),
        ),
{
    let token = match token {
        Some(token) => token,
        None => {
            return Err(AuthAPIError::MissingToken);
        },
    };
    match validate_token(token, now, secret) {
        Ok(_) => {},
        Err(_) => {
            return Err(AuthAPIError::InvalidToken);
        },
    }
    match registry_verdict(banned_token_store.is_token_banned(token)) {
        Ok(()) => {},
        Err(e) => {
            return Err(e);
        },
    }
    revocation_answer(banned_token_store.add_token(token))
}

} // verus!
