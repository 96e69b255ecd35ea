use auth_service::domain::{Email, LoginAttemptId, TwoFACode, TwoFACodeStoreError, UserStoreError};
use auth_service::services::data_stores::password_hash::{
    compute_password_hash, costs_allowed, hashed_or_error, value_at_most, verify_password_hash,
    HASH_ITERATIONS, HASH_LANES, HASH_MEMORY_KIB, MAX_HASH_LANES, MAX_HASH_MEMORY_KIB,
    MAX_PASSWORD_BYTES,
};
use auth_service::services::data_stores::postgres_user_store::{insert_failure, user_from_row};
use auth_service::services::data_stores::redis_banned_token_store::{
    banned_token_ttl, get_key, BANNED_TOKEN_KEY_PREFIX,
};
use auth_service::services::data_stores::redis_two_fa_code_store::{
    decode_entry, encode_entry, get_key as get_code_key, TEN_MINUTES_IN_SECONDS,
    TWO_FA_CODE_PREFIX,
};
use auth_service::utils::TOKEN_TTL_SECONDS;

#[test]
fn banned_token_key_is_prefix_then_token() {
    assert_eq!(BANNED_TOKEN_KEY_PREFIX, "banned_token:");
    assert_eq!(get_key("abc.def.ghi"), "banned_token:abc.def.ghi");
    assert_eq!(get_key(""), "banned_token:");
    assert_eq!(get_key("banned_token:"), "banned_token:banned_token:");
}

#[test]
fn banned_token_entry_outlives_the_token() {
    // A token stands through the second of its expiry, so the entry stays a
    // second longer than the token lives.
    assert_eq!(banned_token_ttl(), 601);
    assert!(banned_token_ttl() > TOKEN_TTL_SECONDS as u64);
}

#[test]
fn two_fa_key_is_prefix_then_identity() {
    assert_eq!(TWO_FA_CODE_PREFIX, "two_fa_code:");
    assert_eq!(TEN_MINUTES_IN_SECONDS, 600);
    let email = Email::parse("test@example.com").ok().unwrap();
    assert_eq!(get_code_key(&email), "two_fa_code:test@example.com");
}

#[test]
fn two_fa_entry_is_a_json_pair() {
    let id = LoginAttemptId::parse("550e8400-e29b-41d4-a716-446655440000".to_string())
        .ok()
        .unwrap();
    let code = TwoFACode::parse("123456".to_string()).ok().unwrap();
    let text = encode_entry(&id, &code).unwrap();
    assert_eq!(text, r#"["550e8400-e29b-41d4-a716-446655440000","123456"]"#);
    let (read_id, read_code) = decode_entry(Some(&text)).ok().unwrap();
    assert!(read_id == id);
    assert!(read_code == code);
}

#[test]
fn two_fa_entry_reads_back_for_fresh_challenges() {
    for _ in 0..20 {
        let id = LoginAttemptId::default();
        let code = TwoFACode::default();
        let text = encode_entry(&id, &code).unwrap();
        let (read_id, read_code) = decode_entry(Some(&text)).ok().unwrap();
        assert!(read_id == id);
        assert!(read_code == code);
    }
}

#[test]
fn missing_two_fa_entry_is_not_found() {
    assert_eq!(
        decode_entry(None).err(),
        Some(TwoFACodeStoreError::LoginAttemptIdNotFound)
    );
}

#[test]
fn unreadable_two_fa_entry_is_unexpected() {
    let cases = [
        "",
        "not json",
        r#"["550e8400-e29b-41d4-a716-446655440000"]"#,
        r#"["550e8400-e29b-41d4-a716-446655440000","123456","more"]"#,
        r#"["not-a-uuid","123456"]"#,
        r#"["550e8400-e29b-41d4-a716-446655440000","12345"]"#,
        r#"["550e8400-e29b-41d4-a716-446655440000",123456]"#,
        r#"{"id":"550e8400-e29b-41d4-a716-446655440000","code":"123456"}"#,
    ];
    for text in cases {
        let error = decode_entry(Some(text)).err().unwrap();
        assert!(
            matches!(error, TwoFACodeStoreError::UnexpectedError(_)),
            "{}",
            text
        );
    }
}

#[test]
fn two_fa_entry_identifier_comes_out_in_displayed_form() {
    let (id, code) =
        decode_entry(Some(r#"["550E8400E29B41D4A716446655440000","000001"]"#)).ok().unwrap();
    assert_eq!(id.as_ref(), "550e8400-e29b-41d4-a716-446655440000");
    assert_eq!(code.as_ref(), "000001");
}

#[test]
fn row_becomes_a_record() {
    let hash = "$argon2id$v=19$m=15000,t=2,p=1$c2FsdHNhbHQ$aGFzaGhhc2hoYXNoaGFzaA";
    let user = user_from_row("test@example.com", hash, true).ok().unwrap();
    assert_eq!(user.email(), "test@example.com");
    assert_eq!(user.password(), hash);
    assert!(user.requires_2fa());
}

#[test]
fn unreadable_row_is_unexpected() {
    let hash = "$argon2id$v=19$m=15000,t=2,p=1$c2FsdHNhbHQ$aGFzaGhhc2hoYXNoaGFzaA";
    assert!(matches!(
        user_from_row("not-an-address", hash, false).err(),
        Some(UserStoreError::UnexpectedError(_))
    ));
    assert!(matches!(
        user_from_row("test@example.com", "", false).err(),
        Some(UserStoreError::UnexpectedError(_))
    ));
}

#[test]
fn hash_is_accepted_for_its_password_only() {
    assert_eq!((HASH_MEMORY_KIB, HASH_ITERATIONS, HASH_LANES), (15000, 2, 1));
    let hash = compute_password_hash("password123!").unwrap();
    assert!(hash.starts_with("$argon2id$v=19$m=15000,t=2,p=1$"));
    assert_ne!(hash, "password123!");
    assert_eq!(verify_password_hash(&hash, "password123!"), Ok(()));
    assert_eq!(
        verify_password_hash(&hash, "password123?"),
        Err("Failed to verify password hash".to_string())
    );
    assert!(verify_password_hash(&hash, "").is_err());
}

#[test]
fn hashes_are_salted() {
    let first = compute_password_hash("password123!").unwrap();
    let second = compute_password_hash("password123!").unwrap();
    assert_ne!(first, second);
    assert!(verify_password_hash(&first, "password123!").is_ok());
    assert!(verify_password_hash(&second, "password123!").is_ok());
}

#[test]
fn text_that_is_no_hash_accepts_nothing() {
    assert!(verify_password_hash("password123!", "password123!").is_err());
    assert!(verify_password_hash("", "").is_err());
    assert!(verify_password_hash("$argon2id$", "x").is_err());
}

#[test]
fn hasher_answer_becomes_hash_or_error() {
    assert_eq!(
        hashed_or_error(Some("$argon2id$x".to_string())),
        Ok("$argon2id$x".to_string())
    );
    assert_eq!(
        hashed_or_error(None),
        Err("Failed to hash password".to_string())
    );
}

#[test]
fn failed_insertion_is_told_apart() {
    assert_eq!(
        insert_failure(true, "duplicate key".to_string()),
        UserStoreError::UserAlreadyExists
    );
    let other = insert_failure(false, "connection reset".to_string());
    assert!(matches!(other, UserStoreError::UnexpectedError(ref cause) if cause == "connection reset"));
}

#[test]
fn hash_carries_its_parameters() {
    let hash = compute_password_hash("password123!").unwrap();
    let parts: Vec<&str> = hash.split('$').collect();
    assert_eq!(parts[1], "argon2id");
    assert_eq!(parts[2], "v=19");
    assert_eq!(parts[3], "m=15000,t=2,p=1");
}

#[test]
fn hash_that_asks_for_too_many_lanes_is_refused() {
    assert_eq!(MAX_HASH_LANES, 0xFF_FFFF);
    for params in [
        "m=8,t=1,p=536870912",
        "m=8,t=1,p=16777216",
        "m=8,t=1,p=1,p=536870912",
        "p=4294967295,m=8,t=1",
    ] {
        let hash = format!("$argon2id$v=19${}$c2FsdHNhbHQ$aGFzaGhhc2hoYXNoaGFzaA", params);
        assert_eq!(
            verify_password_hash(&hash, "password123!"),
            Err("Failed to verify password hash".to_string()),
            "{}",
            params
        );
    }
}

#[test]
fn hash_that_asks_for_too_much_memory_is_refused() {
    assert_eq!(MAX_HASH_MEMORY_KIB, 0x1F_FFFF);
    for params in ["m=2097152,t=1,p=1", "m=4294967295,t=1,p=1", "m=8,t=1,p=1,m=4294967295"] {
        let hash = format!("$argon2id$v=19${}$c2FsdHNhbHQ$aGFzaGhhc2hoYXNoaGFzaA", params);
        assert!(verify_password_hash(&hash, "password123!").is_err(), "{}", params);
    }
}

#[test]
fn hash_of_another_allowed_cost_is_still_verified() {
    // Made with m=8, t=1, p=1; the password is not the one tried below.
    let hash = "$argon2id$v=19$m=8,t=1,p=1$c2FsdHNhbHQ$aGFzaGhhc2hoYXNoaGFzaA";
    assert!(verify_password_hash(hash, "password123!").is_err());
    let made = compute_password_hash("password123!").unwrap();
    assert!(verify_password_hash(&made, "password123!").is_ok());
}

#[test]
fn value_at_most_reads_decimal_numbers() {
    assert!(value_at_most("0", 0));
    assert!(value_at_most("1", 1));
    assert!(!value_at_most("2", 1));
    assert!(value_at_most("16777215", 0xFF_FFFF));
    assert!(!value_at_most("16777216", 0xFF_FFFF));
    assert!(value_at_most("0000000005", 5));
    assert!(!value_at_most("99999999999999999999999999999999", u32::MAX));
    assert!(value_at_most("4294967295", u32::MAX));
    assert!(!value_at_most("4294967296", u32::MAX));
    assert!(value_at_most("", 0));
    // What is no decimal number stands for no number.
    assert!(value_at_most("abc", 0));
    assert!(value_at_most("99999999999x", 0));
    assert!(value_at_most("x99999999999", 0));
}

#[test]
fn costs_are_allowed_pair_by_pair() {
    let pair = |name: &str, value: &str| (name.to_string(), value.to_string());
    assert!(costs_allowed(&vec![]));
    assert!(costs_allowed(&vec![pair("m", "15000"), pair("t", "2"), pair("p", "1")]));
    assert!(costs_allowed(&vec![pair("t", "4294967295")]));
    assert!(costs_allowed(&vec![pair("m", "2097151"), pair("p", "16777215")]));
    assert!(!costs_allowed(&vec![pair("m", "2097152")]));
    assert!(!costs_allowed(&vec![pair("p", "16777216")]));
    assert!(!costs_allowed(&vec![pair("p", "1"), pair("p", "16777216")]));
    assert!(!costs_allowed(&vec![pair("m", "8"), pair("t", "1"), pair("p", "536870912")]));
    assert!(costs_allowed(&vec![pair("keyid", "99999999999")]));
}

#[test]
fn every_password_of_ordinary_length_is_hashed() {
    assert_eq!(MAX_PASSWORD_BYTES, 0xFFFF_FFFF);
    for password in ["", "a", "password123!", "漢字かな", &"x".repeat(10_000)] {
        let hash = compute_password_hash(password).unwrap();
        assert!(verify_password_hash(&hash, password).is_ok());
    }
}
