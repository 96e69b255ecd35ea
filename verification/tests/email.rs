use std::collections::HashSet;

use auth_service::domain::email::EmailError;
use auth_service::domain::Email;

#[test]
fn test_valid_email() {
    let valid_emails = vec![
        "test@example.com",
        "user.name@domain.co.uk",
        "user+tag@example.org",
        "123@example.com",
        "a@b.co",
    ];

    for email in valid_emails {
        let result = Email::parse(email);
        assert!(
            result.is_ok(),
            "Expected {} to be valid, but got error: {:?}",
            email,
            result.as_ref().err()
        );

        if let Ok(parsed_email) = result {
            assert_eq!(parsed_email.as_ref(), email);
        }
    }
}

#[test]
fn test_invalid_email() {
    let invalid_emails = vec![
        "invalid-email",
        "@example.com",
        "user@",
        "user@@example.com",
        "",
        "user@.com",
        "user@example.",
        "user name@example.com", // space in local part
    ];

    for email in invalid_emails {
        let result = Email::parse(email);
        assert!(
            result.is_err(),
            "Expected {} to be invalid, but it was accepted",
            email
        );
    }
}

#[test]
fn email_test_as_ref_implementation() {
    let email_str = "test@example.com";
    let email = Email::parse(email_str).unwrap_or_else(|e| panic!("{:?}", e));
    assert_eq!(email.as_ref(), email_str);
}

#[test]
fn invalid_email_reports_its_error() {
    let error = Email::parse("no-at-sign").err().unwrap();
    assert_eq!(error, EmailError::InvalidFormat);
    assert_eq!(error.to_string(), "Invalid email format");
}

#[test]
fn email_equality_is_case_sensitive() {
    let lower = Email::parse("user@example.com").ok().unwrap();
    let same = Email::parse("user@example.com").ok().unwrap();
    let upper = Email::parse("User@example.com").ok().unwrap();
    assert!(lower == same);
    assert!(lower != upper);
    assert!(lower.clone() == lower);
}

#[test]
fn email_keeps_an_internationalised_domain() {
    let email = Email::parse("user@bücher.example").ok().unwrap();
    assert_eq!(email.as_ref(), "user@bücher.example");
}

#[test]
fn equal_identities_hash_alike() {
    let mut seen = HashSet::new();
    assert!(seen.insert(Email::parse("user@example.com").ok().unwrap()));
    assert!(!seen.insert(Email::parse("user@example.com").ok().unwrap()));
    assert!(seen.insert(Email::parse("User@example.com").ok().unwrap()));
    assert_eq!(seen.len(), 2);
}
