use auth_service::domain::Email;
use auth_service::utils::auth::{check_claims, create_token, expiry_at, TokenError};
use auth_service::utils::{generate_auth_token, validate_token, Claims, TOKEN_TTL_SECONDS};

const NOW: u64 = 1_700_000_000;
const SECRET: &str = "test-secret";

#[test]
fn test_generate_auth_token() {
    let email = Email::parse("test@example.com").ok().unwrap();
    let result = generate_auth_token(&email, NOW, SECRET).unwrap();
    assert_eq!(result.split('.').count(), 3);
}

#[test]
fn test_validate_token_with_valid_token() {
    let email = Email::parse("test@example.com").ok().unwrap();
    let token = generate_auth_token(&email, NOW, SECRET).unwrap();

    let result = validate_token(&token, NOW, SECRET).unwrap();
    assert_eq!(result.sub, "test@example.com");

    let exp = NOW + 9 * 60;

    assert!(result.exp > exp as usize);
}

#[test]
fn test_validate_token_with_invalid_token() {
    let token = "invalid_token".to_owned();
    let result = validate_token(&token, NOW, SECRET);
    assert!(result.is_err());
}

#[test]
fn token_expires_ttl_after_issue() {
    assert_eq!(TOKEN_TTL_SECONDS, 600);
    let email = Email::parse("a@b.co").ok().unwrap();
    let token = generate_auth_token(&email, NOW, SECRET).unwrap();
    let claims = validate_token(&token, NOW, SECRET).unwrap();
    assert_eq!(claims.exp, (NOW + 600) as usize);
    assert!(validate_token(&token, NOW + 599, SECRET).is_ok());
    assert!(validate_token(&token, NOW + 600, SECRET).is_ok());
    assert_eq!(
        validate_token(&token, NOW + 601, SECRET).err(),
        Some(TokenError::Invalid)
    );
    assert_eq!(
        validate_token(&token, u64::MAX, SECRET).err(),
        Some(TokenError::Invalid)
    );
    // Before its issue the token is not expired either.
    assert!(validate_token(&token, 0, SECRET).is_ok());
}

#[test]
fn token_of_another_secret_is_invalid() {
    let email = Email::parse("a@b.co").ok().unwrap();
    let token = generate_auth_token(&email, NOW, SECRET).unwrap();
    assert_eq!(
        validate_token(&token, NOW, "other-secret").err(),
        Some(TokenError::Invalid)
    );
}

#[test]
fn tampered_token_is_invalid() {
    let email = Email::parse("a@b.co").ok().unwrap();
    let token = generate_auth_token(&email, NOW, SECRET).unwrap();
    let other = generate_auth_token(&Email::parse("c@d.co").ok().unwrap(), NOW, SECRET).unwrap();
    // The claims of one token with the signature of the other.
    let parts: Vec<&str> = token.split('.').collect();
    let other_parts: Vec<&str> = other.split('.').collect();
    let forged = format!("{}.{}.{}", parts[0], other_parts[1], parts[2]);
    assert_eq!(
        validate_token(&forged, NOW, SECRET).err(),
        Some(TokenError::Invalid)
    );
    let truncated = &token[..token.len() - 1];
    assert!(validate_token(truncated, NOW, SECRET).is_err());
    assert!(validate_token("", NOW, SECRET).is_err());
    assert!(validate_token("a.b.c", NOW, SECRET).is_err());
}

#[test]
fn same_claims_give_the_same_token() {
    let email = Email::parse("a@b.co").ok().unwrap();
    let first = generate_auth_token(&email, NOW, SECRET).unwrap();
    let second = generate_auth_token(&email, NOW, SECRET).unwrap();
    let later = generate_auth_token(&email, NOW + 1, SECRET).unwrap();
    assert_eq!(first, second);
    assert_ne!(first, later);
}

#[test]
fn create_token_signs_the_claims_given() {
    let claims = Claims {
        sub: "someone@example.com".to_string(),
        exp: 42,
    };
    let token = create_token(&claims, SECRET).unwrap();
    let read = validate_token(&token, 42, SECRET).unwrap();
    assert_eq!(read.sub, "someone@example.com");
    assert_eq!(read.exp, 42);
    assert!(validate_token(&token, 43, SECRET).is_err());
}

#[test]
fn expiry_is_now_plus_ttl_or_an_error() {
    assert_eq!(expiry_at(0), Ok(600));
    assert_eq!(expiry_at(NOW), Ok((NOW + 600) as usize));
    assert_eq!(expiry_at(u64::MAX - 600), Ok(usize::MAX));
    assert_eq!(expiry_at(u64::MAX - 599), Err(TokenError::ClockOverflow));
    assert_eq!(expiry_at(u64::MAX), Err(TokenError::ClockOverflow));
}

#[test]
fn token_cannot_be_issued_at_the_end_of_time() {
    let email = Email::parse("a@b.co").ok().unwrap();
    assert_eq!(
        generate_auth_token(&email, u64::MAX, SECRET).err(),
        Some(TokenError::ClockOverflow)
    );
}

#[test]
fn check_claims_tests_the_expiry() {
    let claims = |exp: usize| Claims {
        sub: "a@b.co".to_string(),
        exp,
    };
    assert_eq!(check_claims(None, 0).err(), Some(TokenError::Invalid));
    assert_eq!(check_claims(Some(claims(10)), 11).err(), Some(TokenError::Invalid));
    let kept = check_claims(Some(claims(10)), 10).unwrap();
    assert_eq!(kept.sub, "a@b.co");
    assert_eq!(kept.exp, 10);
    assert!(check_claims(Some(claims(10)), 0).is_ok());
}

#[test]
fn token_error_messages() {
    assert_eq!(
        TokenError::ClockOverflow.to_string(),
        "Failed to add time delta to current time"
    );
    assert_eq!(
        TokenError::ExpirationOutOfRange.to_string(),
        "Failed to convert expiration to usize"
    );
    assert_eq!(TokenError::SigningFailed.to_string(), "Failed to create token");
    assert_eq!(TokenError::Invalid.to_string(), "Token validation error");
}
