use auth_service::domain::data_stores::{
    LoginAttemptIdError, TwoFACodeError, CODE_LENGTH, CODE_MAX, CODE_MIN,
};
use auth_service::domain::{LoginAttemptId, TwoFACode};

#[test]
fn login_attempt_id_parses_a_uuid() {
    let id = LoginAttemptId::parse("550e8400-e29b-41d4-a716-446655440000".to_string())
        .ok()
        .unwrap();
    assert_eq!(id.as_ref(), "550e8400-e29b-41d4-a716-446655440000");
}

#[test]
fn login_attempt_id_keeps_the_displayed_form() {
    let upper = LoginAttemptId::parse("550E8400-E29B-41D4-A716-446655440000".to_string())
        .ok()
        .unwrap();
    assert_eq!(upper.as_ref(), "550e8400-e29b-41d4-a716-446655440000");
    let simple = LoginAttemptId::parse("550e8400e29b41d4a716446655440000".to_string())
        .ok()
        .unwrap();
    assert_eq!(simple.as_ref(), "550e8400-e29b-41d4-a716-446655440000");
    assert!(upper == simple);
}

#[test]
fn login_attempt_id_refuses_what_is_no_uuid() {
    for text in ["invalid_id", "", "550e8400-e29b-41d4-a716", "zzzzzzzz-e29b-41d4-a716-446655440000"] {
        let result = LoginAttemptId::parse(text.to_string());
        assert_eq!(result.err(), Some(LoginAttemptIdError::Invalid));
    }
    assert_eq!(
        LoginAttemptIdError::Invalid.to_string(),
        "Invalid login attempt id"
    );
}

#[test]
fn login_attempt_id_default_reads_back_as_itself() {
    let fresh = LoginAttemptId::default();
    assert_eq!(fresh.as_ref().len(), 36);
    let again = LoginAttemptId::parse(fresh.as_ref().to_string()).ok().unwrap();
    assert!(again == fresh);
    assert!(fresh.clone() == fresh);
}

#[test]
fn login_attempt_id_defaults_differ() {
    let a = LoginAttemptId::default();
    let b = LoginAttemptId::default();
    assert!(a != b);
}

#[test]
fn two_fa_code_parses_six_digits() {
    for text in ["123456", "000000", "999999", "100000"] {
        let code = TwoFACode::parse(text.to_string()).ok().unwrap();
        assert_eq!(code.as_ref(), text);
    }
}

#[test]
fn two_fa_code_refuses_other_texts() {
    for text in ["123", "", "12345", "1234567", "12345a", "abcdef", "12 456", "-12345", "１２"] {
        let result = TwoFACode::parse(text.to_string());
        assert_eq!(result.err(), Some(TwoFACodeError::Invalid), "{}", text);
    }
    assert_eq!(TwoFACodeError::Invalid.to_string(), "Invalid TwoFACode format");
}

#[test]
fn two_fa_code_refuses_digits_of_other_scripts() {
    // Six Arabic-Indic digits: numbers, but not ASCII.
    assert!(TwoFACode::parse("٠١٢٣٤٥".to_string()).is_err());
    // Two circled digits take six bytes.
    assert!(TwoFACode::parse("①②".to_string()).is_err());
}

#[test]
fn two_fa_code_from_number_spells_the_number() {
    assert_eq!(TwoFACode::from_number(100_000).as_ref(), "100000");
    assert_eq!(TwoFACode::from_number(999_999).as_ref(), "999999");
    assert_eq!(TwoFACode::from_number(123_456).as_ref(), "123456");
    assert_eq!(TwoFACode::from_number(907_050).as_ref(), "907050");
}

#[test]
fn two_fa_code_default_is_in_range() {
    assert_eq!(CODE_LENGTH, 6);
    assert_eq!(CODE_MIN, 100_000);
    assert_eq!(CODE_MAX, 999_999);
    for _ in 0..200 {
        let fresh = TwoFACode::default();
        let text = fresh.as_ref().to_string();
        assert_eq!(text.len(), 6);
        assert!(text.chars().all(|c| c.is_ascii_digit()));
        let number: u32 = text.parse().unwrap();
        assert!((CODE_MIN..=CODE_MAX).contains(&number));
        assert!(TwoFACode::parse(text).ok().unwrap() == fresh);
    }
}

#[test]
fn two_fa_code_equality_and_clone() {
    let a = TwoFACode::parse("111111".to_string()).ok().unwrap();
    let b = TwoFACode::parse("111111".to_string()).ok().unwrap();
    let c = TwoFACode::parse("222222".to_string()).ok().unwrap();
    assert!(a == b);
    assert!(a != c);
    assert!(a.clone() == a);
}

#[test]
fn login_attempt_id_has_the_hyphenated_layout() {
    for _ in 0..50 {
        let fresh = LoginAttemptId::default();
        let text = fresh.as_ref();
        assert_eq!(text.len(), 36);
        for (i, c) in text.chars().enumerate() {
            if i == 8 || i == 13 || i == 18 || i == 23 {
                assert_eq!(c, '-');
            } else {
                assert!(c.is_ascii_digit() || ('a'..='f').contains(&c), "{}", text);
            }
        }
    }
    let parsed = LoginAttemptId::parse("{550E8400-E29B-41D4-A716-446655440000}".to_string())
        .ok()
        .unwrap();
    assert_eq!(parsed.as_ref(), "550e8400-e29b-41d4-a716-446655440000");
}
