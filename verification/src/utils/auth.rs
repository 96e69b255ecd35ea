//! The token codec: signs the claims of a session and reads them back. It
//! keeps no state; whether a token was revoked is for the registry to say.

use vstd::prelude::*;

use crate::domain::email::Email;

verus! {

/// The token that `jsonwebtoken::encode` makes of the claims `sub` and `exp`
/// under the default header (HS256) and the key `secret`, or `None` where
/// it fails.
pub uninterp spec fn signed_token(sub: Seq<char>, exp: usize, secret: Seq<char>) -> Option<
    Seq<char>,
>;

/// The claims `sub` and `exp` that `jsonwebtoken::decode` reads from `token`
/// under the key `secret` (HS256), the expiry not looked at; `None` where
/// the token is malformed, its signature does not match or a claim is
/// missing.
pub uninterp spec fn token_claims(token: Seq<char>, secret: Seq<char>) -> Option<
    (Seq<char>, usize),
>;

/// What a session token says.
#[derive(Debug)]
pub struct Claims {
    /// The identity that logged in.
    pub sub: String,
    /// When the token expires, in seconds since the Unix epoch.
    pub exp: usize,
}

/// How long a token is valid, in seconds from its issue.
pub const TOKEN_TTL_SECONDS: i64 = 600;

/// The failures of the codec.
#[derive(Debug, Clone, Copy, PartialEq, Eq, Structural)]
pub enum TokenError {
    /// The clock is so late that the expiry cannot be computed.
    ClockOverflow,
    /// The expiry does not fit the claim.
    ExpirationOutOfRange,
    /// The signer failed.
    SigningFailed,
    /// The token is malformed, forged or expired; which of these is not
    /// told.
    Invalid,
}

impl TokenError {
    /// The text of the message shown for this error.
    pub open spec fn message(self) -> Seq<char> {
        match self {
            TokenError::ClockOverflow => "Failed to add time delta to current time"@,
            TokenError::ExpirationOutOfRange => "Failed to convert expiration to usize"@,
            TokenError::SigningFailed => "Failed to create token"@,
            TokenError::Invalid => "Token validation error"@,
        }
    }

    /// The message shown for this error.
    pub fn to_string(&self) -> (message: String)
        ensures
            message@ == self.message(),
    {
        match self {
            TokenError::ClockOverflow => "Failed to add time delta to current time".to_owned(),
            TokenError::ExpirationOutOfRange => "Failed to convert expiration to usize".to_owned(),
            TokenError::SigningFailed => "Failed to create token".to_owned(),
            TokenError::Invalid => "Token validation error".to_owned(),
        }
    }
}

/// Calls `jsonwebtoken::encode` with the default header, a JSON object of
/// the two claims, and `EncodingKey::from_secret` of the secret's bytes.
///
/// Trusted: the result is the signer's, and a token that comes out reads
/// back, under the same secret, as the claims that went in.
#[verifier::external_body]
fn sign_claims(sub: &str, exp: usize, secret: &str) -> (token: Option<String>)
    ensures
        match token {
            Some(text) => signed_token(sub@, exp, secret@) == Some(text@) && token_claims(
                text@,
                secret@,
            ) == Some((sub@, exp)),
            None => signed_token(sub@, exp, secret@) is None,
        },
{
    let mut claims = serde_json::Map::new();
    claims.insert("sub".to_owned(), serde_json::Value::from(sub));
    claims.insert("exp".to_owned(), serde_json::Value::from(exp));
    let key = jsonwebtoken::EncodingKey::from_secret(secret.as_bytes());
    jsonwebtoken::encode(&jsonwebtoken::Header::default(), &claims, &key).ok()
}

/// Calls `jsonwebtoken::decode` with `DecodingKey::from_secret` of the
/// secret's bytes and the default validation, its test of the expiry
/// switched off, and picks the two claims out of the JSON object.
///
/// Trusted: the result is what the decoder reads from the token; with the
/// expiry not tested it depends on the token and the secret alone.
#[verifier::external_body]
fn read_claims(token: &str, secret: &str) -> (claims: Option<Claims>)
    ensures
        match claims {
            Some(read) => token_claims(token@, secret@) == Some((read.sub@, read.exp)),
            None => token_claims(token@, secret@) is None,
        },
{
    let mut validation = jsonwebtoken::Validation::default();
    validation.validate_exp = false;
    let key = jsonwebtoken::DecodingKey::from_secret(secret.as_bytes());
    let data = jsonwebtoken::decode::<serde_json::Value>(token, &key, &validation).ok()?;
    let sub = data.claims.get("sub")?.as_str()?.to_owned();
    let exp = usize::try_from(data.claims.get("exp")?.as_u64()?).ok()?;
    Some(Claims { sub, exp })
}

/// When a token issued at `now` expires, where that can be computed and
/// fits the claim.
pub open spec fn expiry(now: u64) -> Result<usize, TokenError> {
    if now + TOKEN_TTL_SECONDS > u64::MAX {
        Err(TokenError::ClockOverflow)
    } else if now + TOKEN_TTL_SECONDS > usize::MAX {
        Err(TokenError::ExpirationOutOfRange)
    } else {
        Ok((now + TOKEN_TTL_SECONDS) as usize)
    }
}

/// Computes [`expiry`].
pub fn expiry_at(now: u64) -> (result: Result<usize, TokenError>)
    ensures
        result == expiry(now),
{
    let ttl: u64 = TOKEN_TTL_SECONDS as u64;
    if now > u64::MAX - ttl {
        return Err(TokenError::ClockOverflow);
    }
    let exp: u64 = now + ttl;
    if exp > usize::MAX as u64 {
        return Err(TokenError::ExpirationOutOfRange);
    }
    Ok(exp as usize)
}

/// Whether `token` stands at `now` under `secret`: it reads as claims and
/// their expiry has not passed.
pub open spec fn token_valid(token: Seq<char>, now: u64, secret: Seq<char>) -> bool {
    token_claims(token, secret) matches Some(claims) && now <= claims.1
}

/// The token for `email` issued at `now`: what [`generate_auth_token`]
/// returns.
pub open spec fn issued_token(email: Seq<char>, now: u64, secret: Seq<char>) -> Result<
    Seq<char>,
    TokenError,
> {
    match expiry(now) {
        Ok(exp) => match signed_token(email, exp, secret) {
            Some(token) => Ok(token),
            None => Err(TokenError::SigningFailed),
        },
        Err(e) => Err(e),
    }
}

/// `token` is what [`generate_auth_token`] issues for `email` at `now`, and
/// reads back as a token of `email` that expires [`TOKEN_TTL_SECONDS`] after
/// `now`.
pub open spec fn is_issued_token(
    token: Seq<char>,
    email: Seq<char>,
    now: u64,
    secret: Seq<char>,
) -> bool {
    &&& issued_token(email, now, secret) == Ok::<Seq<char>, TokenError>(token)
    &&& token_claims(token, secret) == Some((email, (now + TOKEN_TTL_SECONDS) as usize))
}

/// Signs `claims` under `secret`. The token reads back as these claims.
pub fn create_token(claims: &Claims, secret: &str) -> (result: Result<String, TokenError>)
    ensures
        match signed_token(claims.sub@, claims.exp, secret@) {
            Some(token) => result matches Ok(text) && text@ == token && token_claims(
                token,
                secret@,
            ) == Some((claims.sub@, claims.exp)),
            None => result == Err::<String, TokenError>(TokenError::SigningFailed),
        },
{
    match sign_claims(claims.sub.as_str(), claims.exp, secret) {
        Some(token) => Ok(token),
        None => Err(TokenError::SigningFailed),
    }
}

/// Issues a token for `email` at `now`, valid for [`TOKEN_TTL_SECONDS`].
/// It fails only where the expiry cannot be computed or the signer fails;
/// a token that comes out reads back as `email` with that expiry.
pub fn generate_auth_token(email: &Email, now: u64, secret: &str) -> (result: Result<
    String,
    TokenError,
>)
    ensures
        match issued_token(email@, now, secret@) {
            Ok(token) => result matches Ok(text) && is_issued_token(text@, email@, now, secret@),
            Err(e) => result == Err::<String, TokenError>(e),
        },
{
    let exp = match expiry_at(now) {
        Ok(exp) => exp,
        Err(e) => {
            return Err(e);
        },
    };
    let claims = Claims { sub: email.as_ref().to_owned(), exp };
    create_token(&claims, secret)
}

/// What the decoder's answer is worth at `now`: the claims, unless there
/// are none or their expiry has passed.
pub fn check_claims(decoded: Option<Claims>, now: u64) -> (result: Result<Claims, TokenError>)
    ensures
        match decoded {
            Some(claims) if now <= claims.exp => result == Ok::<Claims, TokenError>(claims),
            _ => result == Err::<Claims, TokenError>(TokenError::Invalid),
        },
{
    match decoded {
        Some(claims) => {
            if now <= claims.exp as u64 {
                Ok(claims)
            } else {
                Err(TokenError::Invalid)
            }
        },
        None => Err(TokenError::Invalid),
    }
}

/// Reads `token` under `secret` and tests its expiry against `now`. A
/// token is refused in one way only, whatever is wrong with it.
pub fn validate_token(token: &str, now: u64, secret: &str) -> (result: Result<Claims, TokenError>)
    ensures
        result is Ok <==> token_valid(token@, now, secret@),
        result matches Ok(claims) ==> token_claims(token@, secret@) == Some(
            (claims.sub@, claims.exp),
        ),
        result matches Err(e) ==> e == TokenError::Invalid,
{
    check_claims(read_claims(token, secret), now)
}

} // verus!
