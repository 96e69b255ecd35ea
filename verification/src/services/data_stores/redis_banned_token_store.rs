//! What a revocation registry on a key-value server computes: the key of a
//! token and the time its entry must stay.

use vstd::prelude::*;
use vstd::string::StringExecFns;

use crate::utils::auth::TOKEN_TTL_SECONDS;

verus! {

/// What the key of every revoked token starts with.
pub const BANNED_TOKEN_KEY_PREFIX: &'static str = "banned_token:";

/// The key under which `token` is revoked: the prefix, then the token.
pub fn get_key(token: &str) -> (key: String)
    ensures
        key@ == BANNED_TOKEN_KEY_PREFIX@ + token@,
{
    let mut key = BANNED_TOKEN_KEY_PREFIX.to_owned();
    key.append(token);
    key
}

/// How long an entry stays, in seconds: one second longer than a token
/// lives from its issue. A token still stands in the second of its expiry,
/// so an entry made in the second of the issue must outlast that second.
pub fn banned_token_ttl() -> (seconds: u64)
    ensures
        seconds == TOKEN_TTL_SECONDS + 1,
{
    TOKEN_TTL_SECONDS as u64 + 1
}

/// An entry is there whenever the token it revokes could still stand: at
/// any time from the revocation on at which a token issued before the
/// revocation has not expired, the entry has not run out.
pub proof fn entry_outlives_token(issued_at: u64, revoked_at: u64, at: u64)
    requires
        issued_at <= revoked_at <= at,
        at <= issued_at + TOKEN_TTL_SECONDS,
    ensures
        at < revoked_at + (TOKEN_TTL_SECONDS + 1),
{
}

} // verus!
