use auth_service::domain::Email;

#[test]
fn test_parse_valid_email() {
    let email = Email::parse("test@example.com");
    assert!(email.is_ok());
}

#[test]
fn test_parse_invalid_email() {
    let email = Email::parse("invalid-email");
    assert!(email.is_err());
}

#[test]
fn test_parse_missing_required_tld() {
    let email = Email::parse("test@example");
    assert!(email.is_err());
}

#[test]
fn test_parse_missing_tld_after_dot() {
    let email = Email::parse("test@example.");
    assert!(email.is_err());
}

#[test]
fn test_parse_missing_local_part_and_delimiter() {
    let email = Email::parse("example.com");
    assert!(email.is_err());
}

#[test]
fn test_parse_missing_local_part() {
    let email = Email::parse("@example.com");
    assert!(email.is_err());
}

#[test]
fn parse_keeps_the_text_and_reports_the_rejected_text() {
    let email = Email::parse("test@example.com").unwrap();
    assert_eq!(email.as_ref(), "test@example.com");
    assert_eq!(
        Email::parse("invalid-email").unwrap_err(),
        "invalid-email is not a valid email."
    );
}
