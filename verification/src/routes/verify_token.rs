//! The check of a presented token.

use vstd::prelude::*;

use crate::domain::data_stores::{BannedTokenStore, BannedTokenStoreError};
use crate::domain::error::AuthAPIError;
use crate::utils::auth::{token_valid, validate_token};

verus! {

/// What a caller submits to have a token checked.
pub struct VerifyTokenRequest {
    /// The token's text.
    pub token: String,
}

/// Whether `token` proves a session at `now`: it stands under `secret` and
/// is not revoked. The signature and the expiry come first: a token that
/// stands but is revoked proves nothing.
pub open spec fn session_live(
    banned: Set<Seq<char>>,
    token: Seq<char>,
    now: u64,
    secret: Seq<char>,
) -> bool {
    token_valid(token, now, secret) && !banned.contains(token)
}

/// What the check owes its caller: success for a token that proves a
/// session, and one and the same refusal for every other, unless the
/// registry fails.
pub open spec fn verify_token_post<B: BannedTokenStore>(
    banned: Set<Seq<char>>,
    token: Seq<char>,
    now: u64,
    secret: Seq<char>,
    result: Result<(), AuthAPIError>,
) -> bool {
    match result {
        Ok(()) => session_live(banned, token, now, secret),
        Err(AuthAPIError::InvalidToken) => !session_live(banned, token, now, secret),
        Err(AuthAPIError::UnexpectedError(_)) => !B::reliable() && token_valid(token, now, secret),
        Err(_) => false,
    }
}

/// What the registry's word means for a token that stands: success where
/// it is not revoked, the refusal as invalid where it is, and an unexpected
/// error with the registry's cause where the registry could not say. A
/// registry that cannot answer lets no token through.
pub fn registry_verdict(banned: Result<bool, BannedTokenStoreError>) -> (result: Result<
    (),
    AuthAPIError,
>)
    ensures
        match banned {
            Ok(false) => result is Ok,
            Ok(true) => result matches Err(AuthAPIError::InvalidToken),
            Err(BannedTokenStoreError::UnexpectedError(cause)) => result matches Err(
                AuthAPIError::UnexpectedError(text),
            ) && text@ == cause@,
        },
{
    match banned {
        Ok(false) => Ok(()),
        Ok(true) => Err(AuthAPIError::InvalidToken),
        Err(BannedTokenStoreError::UnexpectedError(cause)) => Err(
            AuthAPIError::UnexpectedError(cause),
        ),
    }
}

/// Checks the token of `request` at `now`: its signature and expiry, then
/// the registry; see [`verify_token_post`].
pub fn verify_token<B: BannedTokenStore>(
    banned_token_store: &B,
    request: VerifyTokenRequest,
    now: u64,
    secret: &str,
) -> (result: Result<(), AuthAPIError>)
    ensures
        verify_token_post::<B>(banned_token_store.banned(), request.token@, now, secret@, result),
{
    match validate_token(request.token.as_str(), now, secret) {
        Ok(_) => {},
        Err(_) => {
            return Err(AuthAPIError::InvalidToken);
        },
    }
    registry_verdict(banned_token_store.is_token_banned(request.token.as_str()))
}

} // verus!
