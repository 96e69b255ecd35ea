//! What a challenge store on a key-value server computes: the key of an
//! identity and the text of an entry.

use vstd::prelude::*;
use vstd::string::StringExecFns;

use crate::domain::data_stores::{
    is_two_fa_code,
    uuid_text,
    uuid_value,
    LoginAttemptId,
    TwoFACode,
    TwoFACodeStoreError,
    CHALLENGE_TTL_SECONDS,
};
use crate::domain::email::Email;

verus! {

/// The JSON text that `serde_json::to_string` makes of the pair of strings
/// (`first`, `second`), or `None` where it fails.
pub uninterp spec fn json_pair(first: Seq<char>, second: Seq<char>) -> Option<Seq<char>>;

/// The pair of strings that `serde_json::from_str` reads from `text`, or
/// `None` where `text` is no JSON array of two strings.
pub uninterp spec fn json_pair_read(text: Seq<char>) -> Option<(Seq<char>, Seq<char>)>;

/// Calls `serde_json::to_string` on the pair.
///
/// Trusted: the result is the serialiser's, and a text that comes out reads
/// back as the pair that went in.
#[verifier::external_body]
fn write_pair(first: &str, second: &str) -> (text: Option<String>)
    ensures
        match text {
            Some(json) => json_pair(first@, second@) == Some(json@) && json_pair_read(json@)
                == Some((first@, second@)),
            None => json_pair(first@, second@) is None,
        },
{
    serde_json::to_string(&(first, second)).ok()
}

/// Calls `serde_json::from_str` for a pair of strings.
///
/// Trusted: the result is what the parser reads from `text`.
#[verifier::external_body]
fn read_pair(text: &str) -> (pair: Option<(String, String)>)
    ensures
        match pair {
            Some(read) => json_pair_read(text@) == Some((read.0@, read.1@)),
            None => json_pair_read(text@) is None,
        },
{
    serde_json::from_str::<(String, String)>(text).ok()
}

/// How long an entry stays, in seconds.
pub const TEN_MINUTES_IN_SECONDS: u64 = CHALLENGE_TTL_SECONDS;

/// What the key of every challenge starts with.
pub const TWO_FA_CODE_PREFIX: &'static str = "two_fa_code:";

/// The key under which the challenge of `email` is kept: the prefix, then
/// the identity.
pub fn get_key(email: &Email) -> (key: String)
    ensures
        key@ == TWO_FA_CODE_PREFIX@ + email@,
{
    let mut key = TWO_FA_CODE_PREFIX.to_owned();
    key.append(email.as_ref());
    key
}

/// The text of the entry for a challenge: the JSON pair of its identifier
/// and its code. It fails only where the serialiser does.
pub fn encode_entry(login_attempt_id: &LoginAttemptId, code: &TwoFACode) -> (result: Result<
    String,
    TwoFACodeStoreError,
>)
    ensures
        match json_pair(login_attempt_id@, code@) {
            Some(json) => result matches Ok(text) && text@ == json && decoded_entry(json) == Some(
                (login_attempt_id@, code@),
            ),
            None => result matches Err(TwoFACodeStoreError::UnexpectedError(_)),
        },
{
    match write_pair(login_attempt_id.as_ref(), code.as_ref()) {
        Some(text) => Ok(text),
        None => Err(TwoFACodeStoreError::UnexpectedError("Failed to serialize 2FA tuple".to_owned())),
    }
}

/// The challenge that an entry's text stands for: its identifier in
/// displayed form and its code, where the text is a JSON pair of a UUID and
/// of six digits.
pub open spec fn decoded_entry(text: Seq<char>) -> Option<(Seq<char>, Seq<char>)> {
    match json_pair_read(text) {
        Some((id, code)) => match uuid_value(id) {
            Some(value) => if is_two_fa_code(code) {
                Some((uuid_text(value), code))
            } else {
                None
            },
            None => None,
        },
        None => None,
    }
}

/// What a fetched entry says. No entry means no challenge; an entry that
/// cannot be read is a failure of the store.
pub fn decode_entry(fetched: Option<&str>) -> (result: Result<
    (LoginAttemptId, TwoFACode),
    TwoFACodeStoreError,
>)
    ensures
        match fetched {
            None => result matches Err(TwoFACodeStoreError::LoginAttemptIdNotFound),
            Some(text) => match decoded_entry(text@) {
                Some(challenge) => result matches Ok(read) && read.0@ == challenge.0 && read.1@
                    == challenge.1,
                None => result matches Err(TwoFACodeStoreError::UnexpectedError(_)),
            },
        },
{
    let text = match fetched {
        Some(text) => text,
        None => {
            return Err(TwoFACodeStoreError::LoginAttemptIdNotFound);
        },
    };
    let pair = match read_pair(text) {
        Some(pair) => pair,
        None => {
            return Err(
                TwoFACodeStoreError::UnexpectedError("Failed to deserialize 2FA tuple".to_owned()),
            );
        },
    };
    let login_attempt_id = match LoginAttemptId::parse(pair.0) {
        Ok(id) => id,
        Err(e) => {
            return Err(TwoFACodeStoreError::UnexpectedError(e.to_string()));
        },
    };
    let code = match TwoFACode::parse(pair.1) {
        Ok(code) => code,
        Err(e) => {
            return Err(TwoFACodeStoreError::UnexpectedError(e.to_string()));
        },
    };
    Ok((login_attempt_id, code))
}

} // verus!
