use auth_service::domain::{
    BannedTokenStore, BannedTokenStoreError, Email, LoginAttemptId, Password, TwoFACode,
    TwoFACodeStore, TwoFACodeStoreError, User, UserStore, UserStoreError,
};
use auth_service::services::data_stores::{
    HashmapTwoFACodeStore, HashmapUserStore, HashsetBannedTokenStore,
};
use auth_service::services::password_hash::verify_password_hash;

fn sample_user() -> User {
    User::new(
        Email::parse("test@example.com").unwrap(),
        Password::parse("password123").unwrap(),
        false,
    )
}

#[test]
fn hashmap_user_store_test_add_user_new() {
    let mut store = HashmapUserStore::default();
    assert_eq!(store.len(), 0);

    let user = sample_user();

    store.add_user(user.clone()).unwrap();
    assert_eq!(store.len(), 1);
}

#[test]
fn hashmap_user_store_test_add_user_if_exists() {
    let mut store = HashmapUserStore::default();
    let user = sample_user();

    store.add_user(user.clone()).unwrap();
    assert_eq!(
        store.add_user(user.clone()),
        Err(UserStoreError::UserAlreadyExists)
    );
}

#[test]
fn a_new_user_is_always_added() {
    let mut store = HashmapUserStore::default();
    for (n, password) in ["12345678", "password123", "p=536870912"].iter().enumerate() {
        let user = User::new(
            Email::parse(&format!("user{n}@example.com")).unwrap(),
            Password::parse(password).unwrap(),
            n % 2 == 0,
        );
        assert_eq!(store.add_user(user), Ok(()));
        assert_eq!(store.len(), n + 1);
        let email = Email::parse(&format!("user{n}@example.com")).unwrap();
        assert_eq!(store.get_user(&email).unwrap().requires_2fa, n % 2 == 0);
        assert!(store
            .validate_user(&email, &Password::parse(password).unwrap())
            .is_ok());
    }
}

#[test]
fn a_refused_user_leaves_the_stored_one_as_it_was() {
    let mut store = HashmapUserStore::default();
    store.add_user(sample_user()).unwrap();
    let other = User::new(
        Email::parse("test@example.com").unwrap(),
        Password::parse("another-password").unwrap(),
        true,
    );
    assert_eq!(store.add_user(other), Err(UserStoreError::UserAlreadyExists));
    assert_eq!(store.len(), 1);
    let email = Email::parse("test@example.com").unwrap();
    assert!(!store.get_user(&email).unwrap().requires_2fa);
    assert!(store
        .validate_user(&email, &Password::parse("password123").unwrap())
        .is_ok());
    assert_eq!(
        store.validate_user(&email, &Password::parse("another-password").unwrap()),
        Err(UserStoreError::InvalidCredentials)
    );
}

#[test]
fn hashmap_user_store_test_get_user_if_exists() {
    let mut store = HashmapUserStore::default();
    let user = sample_user();

    store.add_user(user.clone()).unwrap();
    let stored = store.get_user(&user.email).unwrap();
    assert_eq!(stored.email, user.email);
    assert_eq!(stored.requires_2fa, user.requires_2fa);
    assert_ne!(stored.password, user.password);
    assert!(stored.password.as_ref().starts_with("$argon2id$v=19$m=15000,t=2,p=1$"));
    assert!(verify_password_hash(stored.password.as_ref(), "password123").is_ok());
}

#[test]
fn hashmap_user_store_test_get_user_if_not_exists() {
    let store = HashmapUserStore::default();
    let user = sample_user();

    assert_eq!(
        store.get_user(&user.email),
        Err(UserStoreError::UserNotFound)
    );
}

#[test]
fn hashmap_user_store_test_validate_user_valid() {
    let mut store = HashmapUserStore::default();
    let user = sample_user();
    store.add_user(user).unwrap();

    assert!(store
        .validate_user(
            &Email::parse("test@example.com").unwrap(),
            &Password::parse("password123").unwrap()
        )
        .is_ok());
}

#[test]
fn hashmap_user_store_test_validate_user_invalid() {
    let mut store = HashmapUserStore::default();
    let user = sample_user();
    store.add_user(user).unwrap();

    assert_eq!(
        store.validate_user(
            &Email::parse("test@example.com").unwrap(),
            &Password::parse("not_my_pass").unwrap()
        ),
        Err(UserStoreError::InvalidCredentials)
    );
}

#[test]
fn hashmap_user_store_test_validate_user_if_not_exists() {
    let store = HashmapUserStore::default();

    assert_eq!(
        store.validate_user(
            &Email::parse("test@example.com").unwrap(),
            &Password::parse("password123").unwrap()
        ),
        Err(UserStoreError::UserNotFound)
    );
}

#[test]
fn user_store_errors_compare_by_kind() {
    assert_eq!(
        UserStoreError::UnexpectedError("one".to_owned()),
        UserStoreError::UnexpectedError("another".to_owned())
    );
    assert_ne!(
        UserStoreError::UserNotFound,
        UserStoreError::UnexpectedError("one".to_owned())
    );
    assert_ne!(UserStoreError::UserNotFound, UserStoreError::InvalidCredentials);
    assert_eq!(
        TwoFACodeStoreError::UnexpectedError("one".to_owned()),
        TwoFACodeStoreError::UnexpectedError("another".to_owned())
    );
    assert_ne!(
        TwoFACodeStoreError::LoginAttemptIdNotFound,
        TwoFACodeStoreError::UnexpectedError("one".to_owned())
    );
}

#[test]
fn test_add_token() {
    let mut store = HashsetBannedTokenStore::default();

    // Test adding new token
    let result = store.add_token("token1".to_owned());
    assert!(result.is_ok());

    // Test adding duplicate token
    let result = store.add_token("token1".to_owned());
    assert!(matches!(result, Err(BannedTokenStoreError::AlreadyExists)));
}

#[test]
fn test_token_exists() {
    let mut store = HashsetBannedTokenStore::default();

    // Test non-existent token
    assert!(!store
        .contains_token("token1")
        .expect("Failed to check token existence"));

    // Add token and test existence
    store
        .add_token("token1".to_owned())
        .expect("Failed to add token");
    assert!(store
        .contains_token("token1")
        .expect("Failed to check token existence"));

    // Test different non-existent token
    assert!(!store
        .contains_token("token2")
        .expect("Failed to check token existence"));
}

fn make_store() -> HashmapTwoFACodeStore {
    HashmapTwoFACodeStore::new()
}

fn make_sample_data() -> (Email, LoginAttemptId, TwoFACode) {
    (
        Email::parse("user@example.com").expect("Must be valid email"),
        LoginAttemptId::default(),
        TwoFACode::default(),
    )
}

#[test]
fn add_and_get_code_success() {
    let mut store = make_store();
    let (email, attempt_id, code) = make_sample_data();

    store
        .add_code(email.clone(), attempt_id.clone(), code.clone())
        .expect("add_code should succeed");

    let (stored_attempt_id, stored_code) =
        store.get_code(&email).expect("get_code should succeed");

    assert_eq!(stored_attempt_id, attempt_id);
    assert_eq!(stored_code, code);
}

#[test]
fn get_code_not_found() {
    let store = make_store();
    let email = Email::parse("notfound@example.com").expect("Must be valid email");

    let err = store.get_code(&email).unwrap_err();
    assert!(matches!(err, TwoFACodeStoreError::LoginAttemptIdNotFound));
}

#[test]
fn remove_code_success() {
    let mut store = make_store();
    let (email, attempt_id, code) = make_sample_data();

    store.add_code(email.clone(), attempt_id, code).unwrap();

    store
        .remove_code(&email)
        .expect("remove_code should succeed");

    let err = store.get_code(&email).unwrap_err();
    assert!(matches!(err, TwoFACodeStoreError::LoginAttemptIdNotFound));
}

#[test]
fn remove_code_not_found() {
    let mut store = make_store();
    let email = Email::parse("unknown@example.com").expect("Must be valid email");

    let err = store.remove_code(&email).unwrap_err();
    assert!(matches!(err, TwoFACodeStoreError::LoginAttemptIdNotFound));
}

#[test]
fn overwrite_existing_code() {
    let mut store = make_store();
    let (email, attempt_id1, code1) = make_sample_data();
    let attempt_id2 = LoginAttemptId::default(); // new UUID
    let code2 = TwoFACode::parse("999999".to_owned()).expect("Must be valid 2FA code");

    store
        .add_code(email.clone(), attempt_id1.clone(), code1.clone())
        .unwrap();
    store
        .add_code(email.clone(), attempt_id2.clone(), code2.clone())
        .unwrap();

    let (stored_attempt_id, stored_code) = store.get_code(&email).unwrap();
    assert_eq!(stored_attempt_id, attempt_id2);
    assert_eq!(stored_code, code2);
}

#[test]
fn challenges_of_other_emails_stay() {
    let mut store = make_store();
    let (email, attempt_id, code) = make_sample_data();
    let other = Email::parse("other@example.com").unwrap();
    store.add_code(email.clone(), attempt_id.clone(), code.clone()).unwrap();
    store
        .add_code(other.clone(), LoginAttemptId::default(), TwoFACode::default())
        .unwrap();
    store.remove_code(&other).unwrap();
    let (stored_attempt_id, stored_code) = store.get_code(&email).unwrap();
    assert_eq!(stored_attempt_id, attempt_id);
    assert_eq!(stored_code, code);
}
