use user_accounts::http_api::{ActivateUserRequest, CreateUserOutcome, CreateUserRequest,
    build_response, create_user, health_body, respond, to_user_id};
use user_accounts::usecases::AddUserError;
use user_accounts::ids::{u128_be_bytes, uuid_hyphenated};
use user_accounts::repository::SqliteUserRepository;
use user_accounts::types::UserId;
use user_accounts::user_management::{Email, FirstName, LastName, User, UserStatus};

fn fresh_repo() -> SqliteUserRepository {
    let repo = SqliteUserRepository::open_in_memory().unwrap();
    repo.init_schema().unwrap();
    repo
}

fn payload(email: &str, first: &str, last: &str) -> CreateUserRequest {
    CreateUserRequest {
        email: email.to_string(),
        first_name: first.to_string(),
        last_name: last.to_string(),
    }
}

#[test]
fn create_user_flow_returns_created() {
    let outcome = create_user(fresh_repo(), &payload(" alice@example.com ", "Alice", "Anderson"));
    match outcome {
        CreateUserOutcome::Created(resp) => {
            assert_eq!(resp.email, "alice@example.com");
            assert_eq!(resp.first_name, "Alice");
            assert_eq!(resp.last_name, "Anderson");
            assert_eq!(resp.status, "active");
            assert_eq!(resp.created_at, resp.updated_at);
            assert_eq!(resp.user_id.len(), 36);
        },
        other => panic!("expected Created, got {:?}", other),
    }
}

#[test]
fn create_user_flow_rejects_invalid_fields() {
    let repo = fresh_repo();
    assert!(matches!(
        create_user(repo, &payload("not-an-email", "Alice", "Anderson")),
        CreateUserOutcome::InvalidEmail
    ));
    let repo = fresh_repo();
    assert!(matches!(
        create_user(repo, &payload("alice@example.com", "  ", "Anderson")),
        CreateUserOutcome::InvalidFirstName
    ));
    let repo = fresh_repo();
    assert!(matches!(
        create_user(repo, &payload("alice@example.com", "Alice", "")),
        CreateUserOutcome::InvalidLastName
    ));
}

#[test]
fn create_user_flow_duplicate_conflict() {
    let repo = fresh_repo();
    let existing = User::new(
        Email::parse("bob@example.com").unwrap(),
        FirstName::parse("Bob").unwrap(),
        LastName::parse("Builder").unwrap(),
    );
    repo.create_user(&existing).unwrap();
    let outcome = create_user(repo, &payload("bob@example.com", "Bob", "Builder"));
    assert!(matches!(outcome, CreateUserOutcome::DuplicateEmail));
}

#[test]
fn health_body_json() {
    assert_eq!(health_body(), "{\"status\":\"ok\"}");
}

#[test]
fn build_response_formats_epoch() {
    let mut u = User::new(
        Email::parse("alice@example.com").unwrap(),
        FirstName::parse("Alice").unwrap(),
        LastName::parse("Anderson").unwrap(),
    );
    u.created_at = 0;
    u.updated_at = 0;
    let resp = build_response(&u);
    assert_eq!(resp.created_at, "1970-01-01T00:00:00+00:00");
    assert_eq!(resp.updated_at, "1970-01-01T00:00:00+00:00");
    assert_eq!(resp.user_id, uuid_hyphenated(u.user_id));
}

#[test]
fn uuid_hyphenated_format() {
    assert_eq!(
        uuid_hyphenated(0x0123456789abcdef0123456789abcdefu128),
        "01234567-89ab-cdef-0123-456789abcdef"
    );
    assert_eq!(uuid_hyphenated(0), "00000000-0000-0000-0000-000000000000");
}

#[test]
fn u128_be_bytes_layout() {
    let b = u128_be_bytes(0x0102030405060708090a0b0c0d0e0f10u128);
    assert_eq!(b, vec![1, 2, 3, 4, 5, 6, 7, 8, 9, 10, 11, 12, 13, 14, 15, 16]);
    assert_eq!(u128_be_bytes(1), vec![0, 0, 0, 0, 0, 0, 0, 0, 0, 0, 0, 0, 0, 0, 0, 1]);
}

#[test]
fn respond_maps_use_case_results() {
    assert!(matches!(
        respond(Err(AddUserError::DuplicateEmail)),
        CreateUserOutcome::DuplicateEmail
    ));
    match respond(Err(AddUserError::Persist("disk full".to_string()))) {
        CreateUserOutcome::PersistFailure(m) => assert_eq!(m, "disk full"),
        other => panic!("expected PersistFailure, got {:?}", other),
    }
    let u = User::new(
        Email::parse("alice@example.com").unwrap(),
        FirstName::parse("Alice").unwrap(),
        LastName::parse("Anderson").unwrap(),
    );
    match respond(Ok(u)) {
        CreateUserOutcome::Created(resp) => {
            assert_eq!(resp.email, "alice@example.com");
            assert_eq!(resp.status, "active");
        },
        other => panic!("expected Created, got {:?}", other),
    }
}

#[test]
fn to_user_id_reads_id() {
    assert_eq!(to_user_id(ActivateUserRequest { id: 7 }), UserId(7));
}

#[test]
fn status_survives_response() {
    let u = User::new(
        Email::parse("alice@example.com").unwrap(),
        FirstName::parse("Alice").unwrap(),
        LastName::parse("Anderson").unwrap(),
    );
    assert_eq!(u.status, UserStatus::Active);
    let resp = build_response(&u);
    assert_eq!(resp.status, "active");
}
