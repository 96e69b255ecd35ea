use auth_service::domain::{Email, Password, User, UserStore, UserStoreError};
use auth_service::services::data_stores::HashMapUserStore;

fn test_user(requires_2fa: bool) -> User {
    User::new(
        Email::parse("test@example.com").ok().unwrap(),
        Password::parse("password123!").ok().unwrap(),
        requires_2fa,
    )
}

#[test]
fn hashmap_user_store_test_add_user() {
    let mut store = HashMapUserStore::default();
    let user = User::new(
        Email::parse("test@example.com").ok().unwrap(),
        Password::parse("password123!").ok().unwrap(),
        false,
    );
    assert_eq!(store.add_user(user).unwrap(), ());
    assert_eq!(store.len(), 1);
}

#[test]
fn hashmap_user_store_test_get_user() {
    let mut store = HashMapUserStore::default();
    let user = User::new(
        Email::parse("test@example.com").ok().unwrap(),
        Password::parse("password123!").ok().unwrap(),
        false,
    );
    store.add_user(user).unwrap();
    let retrieved_user = store
        .get_user(&Email::parse("test@example.com").ok().unwrap())
        .ok()
        .unwrap();
    assert_eq!(retrieved_user.email(), "test@example.com");
}

#[test]
fn hashmap_user_store_test_validate_user() {
    let mut store = HashMapUserStore::default();
    let user = User::new(
        Email::parse("test@example.com").ok().unwrap(),
        Password::parse("password123!").ok().unwrap(),
        false,
    );
    store.add_user(user).unwrap();
    assert!(store
        .validate_user(
            &Email::parse("test@example.com").ok().unwrap(),
            "password123!"
        )
        .is_ok());
}

#[test]
fn default_user_store_is_empty() {
    let store = HashMapUserStore::default();
    assert_eq!(store.len(), 0);
    let email = Email::parse("test@example.com").ok().unwrap();
    assert_eq!(store.get_user(&email).err(), Some(UserStoreError::UserNotFound));
    assert_eq!(
        store.validate_user(&email, "password123!").err(),
        Some(UserStoreError::UserNotFound)
    );
}

#[test]
fn second_add_is_refused_and_keeps_the_first_record() {
    let mut store = HashMapUserStore::default();
    store.add_user(test_user(true)).unwrap();
    let email = Email::parse("test@example.com").ok().unwrap();
    let secret_before = store.get_user(&email).ok().unwrap().password().to_string();

    let other = User::new(
        Email::parse("test@example.com").ok().unwrap(),
        Password::parse("another456?").ok().unwrap(),
        false,
    );
    assert_eq!(
        store.add_user(other).err(),
        Some(UserStoreError::UserAlreadyExists)
    );

    assert_eq!(store.len(), 1);
    let kept = store.get_user(&email).ok().unwrap();
    assert!(kept.requires_2fa());
    assert_eq!(kept.password(), secret_before);
    assert!(store.validate_user(&email, "password123!").is_ok());
    assert_eq!(
        store.validate_user(&email, "another456?").err(),
        Some(UserStoreError::InvalidCredentials)
    );
}

#[test]
fn wrong_password_is_refused() {
    let mut store = HashMapUserStore::default();
    store.add_user(test_user(false)).unwrap();
    let email = Email::parse("test@example.com").ok().unwrap();
    assert_eq!(
        store.validate_user(&email, "password123?").err(),
        Some(UserStoreError::InvalidCredentials)
    );
    assert_eq!(
        store.validate_user(&email, "").err(),
        Some(UserStoreError::InvalidCredentials)
    );
}

#[test]
fn store_keeps_a_hash_and_not_the_password() {
    let mut store = HashMapUserStore::default();
    store.add_user(test_user(false)).unwrap();
    let email = Email::parse("test@example.com").ok().unwrap();
    let stored = store.get_user(&email).ok().unwrap();
    assert_ne!(stored.password(), "password123!");
    assert!(stored.password().starts_with("$argon2id$v=19$m=15000,t=2,p=1$"));
    // The hash itself is not accepted as the password.
    let hash = stored.password().to_string();
    assert_eq!(
        store.validate_user(&email, &hash).err(),
        Some(UserStoreError::InvalidCredentials)
    );
}

#[test]
fn identities_differ_by_case() {
    let mut store = HashMapUserStore::default();
    store.add_user(test_user(false)).unwrap();
    let upper = Email::parse("Test@example.com").ok().unwrap();
    assert_eq!(store.get_user(&upper).err(), Some(UserStoreError::UserNotFound));
    let other = User::new(upper, Password::parse("password123!").ok().unwrap(), true);
    assert!(store.add_user(other).is_ok());
    assert_eq!(store.len(), 2);
}

#[test]
fn user_getters_return_the_parts() {
    let user = test_user(true);
    assert_eq!(user.email(), "test@example.com");
    assert_eq!(user.identity().as_ref(), "test@example.com");
    assert_eq!(user.password(), "password123!");
    assert!(user.requires_2fa());
    let copy = user.clone();
    assert_eq!(copy.email(), "test@example.com");
    assert_eq!(copy.password(), "password123!");
    assert!(copy.requires_2fa());
    assert!(!test_user(false).requires_2fa());
}

#[test]
fn user_store_error_messages_and_equality() {
    assert_eq!(
        UserStoreError::UserAlreadyExists.to_string(),
        "User already exists"
    );
    assert_eq!(UserStoreError::UserNotFound.to_string(), "User not found");
    assert_eq!(
        UserStoreError::InvalidCredentials.to_string(),
        "Invalid credentials"
    );
    assert_eq!(
        UserStoreError::UnexpectedError("db down".to_string()).to_string(),
        "Unexpected error"
    );
    assert_eq!(
        UserStoreError::UnexpectedError("a".to_string()),
        UserStoreError::UnexpectedError("b".to_string())
    );
    assert_ne!(UserStoreError::UserNotFound, UserStoreError::InvalidCredentials);
}

#[test]
fn record_takes_a_hash_that_can_stand_as_a_secret() {
    let mut store = HashMapUserStore::default();
    let user = test_user(true);
    let hash = "$argon2id$v=19$m=15000,t=2,p=1$c2FsdHNhbHQ$aGFzaGhhc2hoYXNoaGFzaA";
    assert_eq!(store.record(&user, Ok(hash.to_string())), Ok(()));
    assert_eq!(store.len(), 1);
    let stored = store
        .get_user(&Email::parse("test@example.com").ok().unwrap())
        .ok()
        .unwrap();
    assert_eq!(stored.email(), "test@example.com");
    assert_eq!(stored.password(), hash);
    assert!(stored.requires_2fa());
}

#[test]
fn record_refuses_a_failed_hash() {
    let mut store = HashMapUserStore::default();
    let user = test_user(false);
    let failed = store.record(&user, Err("Failed to hash password".to_string()));
    assert!(matches!(failed, Err(UserStoreError::UnexpectedError(ref cause)) if cause == "Failed to hash password"));
    assert_eq!(store.len(), 0);
}

#[test]
fn record_keeps_whatever_hash_it_is_given() {
    let mut store = HashMapUserStore::default();
    let user = test_user(false);
    assert_eq!(store.record(&user, Ok("x".to_string())), Ok(()));
    let email = Email::parse("test@example.com").ok().unwrap();
    assert_eq!(store.get_user(&email).ok().unwrap().password(), "x");
    // A text that is no hash accepts nothing.
    assert_eq!(
        store.validate_user(&email, "x").err(),
        Some(UserStoreError::InvalidCredentials)
    );
}

#[test]
fn add_user_registers_every_free_identity() {
    let mut store = HashMapUserStore::default();
    for (i, password) in ["password123!", "éééé1!", "a b c d 1 ! 漢字", "12345678!"]
        .iter()
        .enumerate()
    {
        let user = User::new(
            Email::parse(&format!("user{}@example.com", i)).ok().unwrap(),
            Password::parse(password).ok().unwrap(),
            i % 2 == 0,
        );
        assert_eq!(store.add_user(user), Ok(()));
        assert_eq!(store.len(), i + 1);
        let email = Email::parse(&format!("user{}@example.com", i)).ok().unwrap();
        assert!(store.validate_user(&email, password).is_ok());
        assert_eq!(store.get_user(&email).ok().unwrap().requires_2fa(), i % 2 == 0);
    }
}

#[test]
fn record_with_hash_keeps_the_three_parts() {
    let user = User::with_hash(
        Email::parse("test@example.com").ok().unwrap(),
        "$argon2id$x".to_string(),
        true,
    );
    assert_eq!(user.email(), "test@example.com");
    assert_eq!(user.password(), "$argon2id$x");
    assert!(user.requires_2fa());
}

#[test]
fn a_stored_hash_of_forbidden_cost_is_refused_and_not_computed() {
    let mut store = HashMapUserStore::default();
    let user = test_user(false);
    let hash = "$argon2id$v=19$m=8,t=1,p=536870912$c2FsdHNhbHQ$aGFzaGhhc2hoYXNoaGFzaA";
    store.record(&user, Ok(hash.to_string())).unwrap();
    let email = Email::parse("test@example.com").ok().unwrap();
    assert_eq!(
        store.validate_user(&email, "password123!").err(),
        Some(UserStoreError::InvalidCredentials)
    );
}

#[test]
fn record_replaces_the_record_of_the_identity() {
    let mut store = HashMapUserStore::default();
    store.record(&test_user(false), Ok("$first-hash-1".to_string())).unwrap();
    store.record(&test_user(true), Ok("$second-hash-2".to_string())).unwrap();
    assert_eq!(store.len(), 1);
    let stored = store
        .get_user(&Email::parse("test@example.com").ok().unwrap())
        .ok()
        .unwrap();
    assert_eq!(stored.password(), "$second-hash-2");
    assert!(stored.requires_2fa());
}

#[test]
fn add_hashed_user_registers_a_free_identity_and_refuses_a_taken_one() {
    let mut store = HashMapUserStore::default();
    let user = test_user(false);
    let hashed = auth_service::services::data_stores::password_hash::compute_password_hash(
        user.password(),
    );
    assert_eq!(store.add_hashed_user(&user, hashed), Ok(()));
    assert_eq!(store.len(), 1);
    let email = Email::parse("test@example.com").ok().unwrap();
    assert!(store.validate_user(&email, "password123!").is_ok());

    // A taken identity is refused whatever the hasher said.
    assert_eq!(
        store.add_hashed_user(&user, Ok("$another-hash-1".to_string())),
        Err(UserStoreError::UserAlreadyExists)
    );
    assert_eq!(
        store.add_hashed_user(&user, Err("Failed to hash password".to_string())),
        Err(UserStoreError::UserAlreadyExists)
    );
    assert_eq!(store.len(), 1);
    assert!(store.validate_user(&email, "password123!").is_ok());
}

#[test]
fn add_hashed_user_reports_a_failed_hash_on_a_free_identity() {
    let mut store = HashMapUserStore::default();
    let result = store.add_hashed_user(&test_user(false), Err("no memory".to_string()));
    assert!(matches!(result, Err(UserStoreError::UnexpectedError(ref cause)) if cause == "no memory"));
    assert_eq!(store.len(), 0);
}
