use auth_service::domain::{Email, Password, User, UserStoreError};
use auth_service::services::data_stores::postgres_user_store::{
    insert_failure, user_from_row, user_row, validate_stored_user, UserRow, UNIQUE_VIOLATION,
};
use auth_service::services::password_hash::{
    compute_password_hash, compute_password_hash_with_salt, has_bounded_parallelism,
    hash_outcome, verification_outcome, verify_password_hash, PasswordHashError,
    ARGON2_ITERATIONS, ARGON2_MEMORY_KIB, ARGON2_PARALLELISM, MAX_HASHED_PASSWORD_LENGTH,
    MAX_PARALLELISM,
};
use auth_service::services::resend_email_client::{
    bearer_authorization, send_email_request, AUTHORIZATION_HEADER, EMAILS_PATH,
};

#[test]
fn a_hash_verifies_against_its_password_only() {
    let hash = compute_password_hash("password123").unwrap();
    assert_ne!(hash, "password123");
    assert_eq!(verify_password_hash(&hash, "password123"), Ok(()));
    assert_eq!(
        verify_password_hash(&hash, "password124"),
        Err(PasswordHashError::Mismatch)
    );
    assert_eq!(
        verify_password_hash(&hash, ""),
        Err(PasswordHashError::Mismatch)
    );
}

#[test]
fn a_hash_names_its_algorithm_and_costs() {
    assert_eq!(ARGON2_MEMORY_KIB, 15000);
    assert_eq!(ARGON2_ITERATIONS, 2);
    assert_eq!(ARGON2_PARALLELISM, 1);
    let hash = compute_password_hash("password123").unwrap();
    assert!(hash.starts_with("$argon2id$v=19$m=15000,t=2,p=1$"));
}

#[test]
fn a_hash_is_fixed_by_the_password_and_the_salt() {
    let salt = "YWJjZGVmZ2hpamtsbW5vcA";
    let first = compute_password_hash_with_salt("password123", salt).unwrap();
    let second = compute_password_hash_with_salt("password123", salt).unwrap();
    assert_eq!(first, second);
    assert!(first.starts_with("$argon2id$v=19$m=15000,t=2,p=1$YWJjZGVmZ2hpamtsbW5vcA$"));
    assert_eq!(verify_password_hash(&first, "password123"), Ok(()));
    let other_password = compute_password_hash_with_salt("password124", salt).unwrap();
    assert_ne!(first, other_password);
    let other_salt =
        compute_password_hash_with_salt("password123", "cG9ubWxramloZ2ZlZGNiYQ").unwrap();
    assert_ne!(first, other_salt);
}

#[test]
fn a_salt_that_is_no_salt_fails_the_hashing() {
    assert_eq!(
        compute_password_hash_with_salt("password123", "not a salt"),
        Err(PasswordHashError::HashingFailed)
    );
    assert_eq!(
        compute_password_hash_with_salt("password123", ""),
        Err(PasswordHashError::HashingFailed)
    );
}

#[test]
fn every_password_that_argon2_takes_is_hashed() {
    assert_eq!(MAX_HASHED_PASSWORD_LENGTH, u32::MAX);
    let long = "x".repeat(10_000);
    for password in ["", "p", "password123", "p=99999999", "pässwörd", long.as_str()] {
        let hash = compute_password_hash(password).unwrap();
        assert_eq!(verify_password_hash(&hash, password), Ok(()));
    }
}

#[test]
fn a_hash_is_a_phc_string_with_a_drawn_salt() {
    let hash = compute_password_hash("password123").unwrap();
    let parts: Vec<&str> = hash.split('$').collect();
    assert_eq!(parts.len(), 6);
    assert_eq!(parts[0], "");
    assert_eq!(parts[1], "argon2id");
    assert_eq!(parts[2], "v=19");
    assert_eq!(parts[3], "m=15000,t=2,p=1");
    // 16 bytes in B64
    assert_eq!(parts[4].len(), 22);
    // 32 bytes in B64
    assert_eq!(parts[5].len(), 43);
    assert!(hash.is_ascii());
    assert!(hash.len() >= 8);
    assert!(has_bounded_parallelism(&hash));
    assert_eq!(hash.matches("p=").count(), 1);
    assert!(!hash.contains("password123"));
}

#[test]
fn a_text_names_its_lanes_after_p_equals() {
    assert_eq!(MAX_PARALLELISM, 16_777_215);
    assert!(has_bounded_parallelism(""));
    assert!(has_bounded_parallelism("password123"));
    assert!(has_bounded_parallelism("$argon2id$v=19$m=15000,t=2,p=1$c2FsdA$aGFzaA"));
    assert!(has_bounded_parallelism("p=16777215"));
    assert!(!has_bounded_parallelism("p=16777216"));
    assert!(has_bounded_parallelism("p=0016777215"));
    assert!(!has_bounded_parallelism("p=0016777216"));
    assert!(!has_bounded_parallelism("p=536870912"));
    assert!(!has_bounded_parallelism("p=4294967295"));
    assert!(!has_bounded_parallelism("p=99999999999999999999999999999999"));
    assert!(has_bounded_parallelism("p="));
    assert!(has_bounded_parallelism("p"));
    assert!(has_bounded_parallelism("p=x536870912"));
    assert!(has_bounded_parallelism("m=536870912,t=536870912,p=5"));
    assert!(!has_bounded_parallelism("p=1,p=536870912"));
    assert!(!has_bounded_parallelism("$argon2id$v=19$m=15000,t=2,p=536870912$c2FsdA$aGFzaA"));
    assert!(!has_bounded_parallelism("xp=536870912,"));
    assert!(has_bounded_parallelism("pp=12,=p3"));
    // not in ASCII
    assert!(!has_bounded_parallelism("p=1é"));
}

#[test]
fn a_text_that_names_too_many_lanes_verifies_against_nothing() {
    let text = "$argon2id$v=19$m=4294967295,t=1,p=536870912$YWJjZGVmZ2hpamtsbW5vcA$\
CWOrkoo7oJBQ/iyh7uJ0LO2aLEfrHwTWllSAxT0zRno";
    assert_eq!(
        verify_password_hash(text, "password123"),
        Err(PasswordHashError::Mismatch)
    );
    let text = "$argon2id$v=19$m=8,t=1,p=4294967295$YWJjZGVmZ2hpamtsbW5vcA$\
CWOrkoo7oJBQ/iyh7uJ0LO2aLEfrHwTWllSAxT0zRno";
    assert_eq!(
        verify_password_hash(text, "password123"),
        Err(PasswordHashError::Mismatch)
    );
    // the most lanes that Argon2 takes, with too little memory for them
    let text = "$argon2id$v=19$m=8,t=1,p=16777215$YWJjZGVmZ2hpamtsbW5vcA$\
CWOrkoo7oJBQ/iyh7uJ0LO2aLEfrHwTWllSAxT0zRno";
    assert_eq!(
        verify_password_hash(text, "password123"),
        Err(PasswordHashError::Mismatch)
    );
}

#[test]
fn a_failure_of_the_verifier_is_a_mismatch() {
    assert_eq!(verification_outcome(Ok(())), Ok(()));
    assert_eq!(
        verification_outcome(Err(argon2::password_hash::Error::Password)),
        Err(PasswordHashError::Mismatch)
    );
}

#[test]
fn a_hash_that_names_too_many_lanes_is_a_failed_hashing() {
    assert_eq!(
        hash_outcome(Ok("$argon2id$v=19$m=15000,t=2,p=536870912$c2FsdA$aGFzaA".to_owned())),
        Err(PasswordHashError::HashingFailed)
    );
}

#[test]
fn a_failure_of_the_hasher_is_a_failed_hashing() {
    assert_eq!(
        hash_outcome(Err(argon2::password_hash::Error::Password)),
        Err(PasswordHashError::HashingFailed)
    );
    assert_eq!(
        hash_outcome(Err(argon2::password_hash::Error::Algorithm)),
        Err(PasswordHashError::HashingFailed)
    );
    assert_eq!(hash_outcome(Ok("hash".to_owned())), Ok("hash".to_owned()));
}

#[test]
fn two_hashes_of_one_password_differ_in_their_salt() {
    let first = compute_password_hash("password123").unwrap();
    let second = compute_password_hash("password123").unwrap();
    assert_ne!(first, second);
    assert_eq!(verify_password_hash(&first, "password123"), Ok(()));
    assert_eq!(verify_password_hash(&second, "password123"), Ok(()));
}

#[test]
fn a_text_that_is_no_hash_verifies_against_nothing() {
    assert_eq!(
        verify_password_hash("password123", "password123"),
        Err(PasswordHashError::Mismatch)
    );
    assert_eq!(
        verify_password_hash("", ""),
        Err(PasswordHashError::Mismatch)
    );
}

fn sample_user(requires_2fa: bool) -> User {
    User::new(
        Email::parse("test@example.com").unwrap(),
        Password::parse("password123").unwrap(),
        requires_2fa,
    )
}

#[test]
fn a_row_is_made_for_every_user() {
    for password in ["12345678", "password123", "p=536870912"] {
        let user = User::new(
            Email::parse("test@example.com").unwrap(),
            Password::parse(password).unwrap(),
            false,
        );
        let row = user_row(&user).unwrap();
        assert!(row.password_hash.len() >= 8);
        assert!(user_from_row(row).is_ok());
    }
}

#[test]
fn a_row_holds_the_hash_in_place_of_the_password() {
    let row = user_row(&sample_user(true)).unwrap();
    assert_eq!(row.email, "test@example.com");
    assert!(row.requires_2fa);
    assert_ne!(row.password_hash, "password123");
    assert_eq!(verify_password_hash(&row.password_hash, "password123"), Ok(()));
}

#[test]
fn a_row_read_back_is_the_user_with_the_hash() {
    let row = user_row(&sample_user(false)).unwrap();
    let hash = row.password_hash.clone();
    let user = user_from_row(row).unwrap();
    assert_eq!(user.email.as_ref(), "test@example.com");
    assert_eq!(user.password.as_ref(), hash);
    assert!(!user.requires_2fa);
    assert_eq!(
        validate_stored_user(&user, &Password::parse("password123").unwrap()),
        Ok(())
    );
    assert_eq!(
        validate_stored_user(&user, &Password::parse("not_my_pass").unwrap()),
        Err(UserStoreError::InvalidCredentials)
    );
}

#[test]
fn a_row_that_holds_no_email_or_no_hash_is_unexpected() {
    let row = UserRow {
        email: "not an email".to_owned(),
        password_hash: "long enough".to_owned(),
        requires_2fa: false,
    };
    assert!(matches!(
        user_from_row(row),
        Err(UserStoreError::UnexpectedError(_))
    ));
    let row = UserRow {
        email: "test@example.com".to_owned(),
        password_hash: "short".to_owned(),
        requires_2fa: false,
    };
    assert!(matches!(
        user_from_row(row),
        Err(UserStoreError::UnexpectedError(_))
    ));
}

#[test]
fn a_violated_unique_constraint_means_that_the_user_exists() {
    assert_eq!(UNIQUE_VIOLATION, "23505");
    assert_eq!(
        insert_failure(Some("23505"), "duplicate key".to_owned()),
        UserStoreError::UserAlreadyExists
    );
    match insert_failure(Some("23503"), "foreign key".to_owned()) {
        UserStoreError::UnexpectedError(cause) => assert_eq!(cause, "foreign key"),
        other => panic!("unexpected: {:?}", other),
    }
    match insert_failure(None, "connection lost".to_owned()) {
        UserStoreError::UnexpectedError(cause) => assert_eq!(cause, "connection lost"),
        other => panic!("unexpected: {:?}", other),
    }
    assert!(matches!(
        insert_failure(Some(""), "empty".to_owned()),
        UserStoreError::UnexpectedError(_)
    ));
}

#[test]
fn the_request_body_carries_the_content_twice() {
    let sender = Email::parse("sender@example.com").unwrap();
    let recipient = Email::parse("recipient@example.com").unwrap();
    let body = send_email_request(&sender, &recipient, "Your 2FA code", "123456");
    assert_eq!(body.from, "sender@example.com");
    assert_eq!(body.to, "recipient@example.com");
    assert_eq!(body.subject, "Your 2FA code");
    assert_eq!(body.text, "123456");
    assert_eq!(body.html, "123456");
}

#[test]
fn the_authorization_header_is_a_bearer_token() {
    assert_eq!(bearer_authorization("abc"), "Bearer abc");
    assert_eq!(bearer_authorization(""), "Bearer ");
    assert_eq!(AUTHORIZATION_HEADER, "Authorization");
    assert_eq!(EMAILS_PATH, "/emails");
}
