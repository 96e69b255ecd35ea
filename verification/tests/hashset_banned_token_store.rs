use auth_service::domain::{BannedTokenStore, BannedTokenStoreError};
use auth_service::services::data_stores::HashSetBannedTokenStore;

#[test]
fn hashset_banned_token_store_test_add_token_success() {
    let mut store = HashSetBannedTokenStore::default();
    let token = "test_token_123";

    let result = store.add_token(token);

    assert!(result.is_ok());
    assert_eq!(store.is_token_banned(token), Ok(true));
}

#[test]
fn hashset_banned_token_store_test_add_token_already_exists() {
    let mut store = HashSetBannedTokenStore::default();
    let token = "duplicate_token";

    // Add token first time - should succeed
    let first_result = store.add_token(token);
    assert!(first_result.is_ok());

    // Revoking is idempotent: the same token again is no error
    let second_result = store.add_token(token);
    assert!(second_result.is_ok());
    assert_eq!(store.is_token_banned(token), Ok(true));
}

#[test]
fn hashset_banned_token_store_test_is_token_banned_true() {
    let mut store = HashSetBannedTokenStore::default();
    let token = "banned_token";

    // Add token to banned list
    store.add_token(token).unwrap();

    // Check if token is banned
    let result = store.is_token_banned(token);
    assert!(result.is_ok());
    assert_eq!(result.unwrap(), true);
}

#[test]
fn hashset_banned_token_store_test_is_token_banned_false() {
    let store = HashSetBannedTokenStore::default();
    let token = "not_banned_token";

    // Check if token is banned (it shouldn't be)
    let result = store.is_token_banned(token);
    assert!(result.is_ok());
    assert_eq!(result.unwrap(), false);
}

#[test]
fn hashset_banned_token_store_test_multiple_tokens() {
    let mut store = HashSetBannedTokenStore::default();
    let tokens = vec!["token1", "token2", "token3"];

    // Add multiple tokens
    for token in &tokens {
        let result = store.add_token(token);
        assert!(result.is_ok());
    }

    // Verify all tokens are banned
    for token in &tokens {
        let result = store.is_token_banned(token);
        assert!(result.is_ok());
        assert_eq!(result.unwrap(), true);
    }

    // Verify a non-added token is not banned
    let result = store.is_token_banned("non_existent_token");
    assert!(result.is_ok());
    assert_eq!(result.unwrap(), false);
}

#[test]
fn hashset_banned_token_store_test_empty_token() {
    let mut store = HashSetBannedTokenStore::default();
    let empty_token = "";

    // Add empty token
    let result = store.add_token(empty_token);
    assert!(result.is_ok());

    // Check if empty token is banned
    let result = store.is_token_banned(empty_token);
    assert!(result.is_ok());
    assert_eq!(result.unwrap(), true);
}

#[test]
fn hashset_banned_token_store_test_default_store_is_empty() {
    let store = HashSetBannedTokenStore::default();

    // New store should not have any banned tokens
    let result = store.is_token_banned("any_token");
    assert!(result.is_ok());
    assert_eq!(result.unwrap(), false);

    // Verify the internal HashSet is empty
    assert!(store.is_empty());
}

#[test]
fn banned_store_is_not_empty_after_a_revocation() {
    let mut store = HashSetBannedTokenStore::default();
    store.add_token("token").unwrap();
    assert!(!store.is_empty());
}

#[test]
fn banned_store_error_message_and_equality() {
    assert_eq!(
        BannedTokenStoreError::UnexpectedError("redis down".to_string()).to_string(),
        "Unexpected error"
    );
    assert_eq!(
        BannedTokenStoreError::UnexpectedError("a".to_string()),
        BannedTokenStoreError::UnexpectedError("b".to_string())
    );
}
