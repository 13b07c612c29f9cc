use auth_service::domain::Email;

#[test]
fn test_parse_valid_email() {
    let email = "test@example.com";
    assert!(Email::parse(email.to_string()).is_ok());
}

#[test]
fn test_parse_empty_email() {
    let email = "";
    assert!(Email::parse(email.to_string()).is_err());
}

#[test]
fn test_parse_email_without_at_symbol() {
    let email = "testexample.com";
    assert!(Email::parse(email.to_string()).is_err());
}

#[test]
fn test_parse_invalid_email_format() {
    let email = "test@";
    assert!(Email::parse(email.to_string()).is_err());
}

#[test]
fn test_parse_invalid_email_with_spaces() {
    let email = "test user@example.com";
    assert!(Email::parse(email.to_string()).is_err());
}

#[test]
fn test_parse_complex_valid_email() {
    let email = "test.user+tag-123@sub.example.com";
    assert!(Email::parse(email.to_string()).is_ok());
}

#[test]
fn test_as_ref() {
    let email_str = "test@example.com";
    let email = Email::parse(email_str.to_string()).unwrap();
    assert_eq!(email.as_ref(), email_str);
}

#[test]
fn parse_keeps_the_text_unchanged() {
    let email = Email::parse("Mixed.Case@Example.COM".to_string()).unwrap();
    assert_eq!(email.as_ref(), "Mixed.Case@Example.COM");
}

#[test]
fn rejected_email_reports_its_input() {
    let err = Email::parse("not-an-email".to_string()).unwrap_err();
    assert_eq!(err.input, "not-an-email");
    assert_eq!(err.message(), "not-an-email is not a valid email.");
}

#[test]
fn emails_compare_by_text() {
    let a = Email::parse("a@example.com".to_string()).unwrap();
    let b = Email::parse("a@example.com".to_string()).unwrap();
    let c = Email::parse("c@example.com".to_string()).unwrap();
    assert!(a == b);
    assert!(a != c);
    assert!(a.clone() == a);
}

#[test]
fn two_at_signs_are_rejected() {
    assert!(Email::parse("something@@somewhere.com".to_string()).is_err());
}
