use user_accounts::user_management::{Email, EmailError, FirstName, LastName, NameError, User,
    UserStatus};

#[test]
fn new_user_has_id_and_timestamps() {
    let u = User::new(
        Email::parse("alice@example.com").unwrap(),
        FirstName::parse("Alice").unwrap(),
        LastName::parse("Anderson").unwrap(),
    );
    assert_ne!(u.user_id, 0u128);
    assert_eq!(u.status, UserStatus::Active);
    assert!(u.updated_at >= u.created_at);
}

#[test]
fn email_parse_trims_and_validates() {
    let e = Email::parse("  alice@example.com  ").unwrap();
    assert_eq!(e.as_str(), "alice@example.com");
}

#[test]
fn email_parse_rejects_empty() {
    assert_eq!(Email::parse("").unwrap_err(), EmailError::Empty);
    assert_eq!(Email::parse("   \t ").unwrap_err(), EmailError::Empty);
}

#[test]
fn email_parse_rejects_missing_at() {
    assert_eq!(Email::parse("alice.example.com").unwrap_err(), EmailError::InvalidFormat);
}

#[test]
fn name_parse_trims_and_rejects_blank() {
    let f = FirstName::parse(" Alice ").unwrap();
    assert_eq!(f.as_str(), "Alice");
    let l = LastName::parse("Anderson").unwrap();
    assert_eq!(l.as_str(), "Anderson");
    assert_eq!(FirstName::parse("  ").unwrap_err(), NameError::Empty);
    assert_eq!(LastName::parse("").unwrap_err(), NameError::Empty);
}

#[test]
fn touch_keeps_identity() {
    let mut u = User::new(
        Email::parse("alice@example.com").unwrap(),
        FirstName::parse("Alice").unwrap(),
        LastName::parse("Anderson").unwrap(),
    );
    let id = u.user_id;
    let created = u.created_at;
    u.touch();
    assert_eq!(u.user_id, id);
    assert_eq!(u.created_at, created);
    assert_eq!(u.email.as_str(), "alice@example.com");
}
