use user_accounts::repository::{SqliteRepoError, SqliteUserRepository, status_to_str};
use user_accounts::user_management::{Email, FirstName, LastName, User, UserStatus};

fn fresh_repo() -> SqliteUserRepository {
    let repo = SqliteUserRepository::open_in_memory().unwrap();
    repo.init_schema().unwrap();
    repo
}

#[test]
fn create_and_count_user_in_memory() {
    let repo = fresh_repo();

    let user = User::new(
        Email::parse("alice@example.com").unwrap(),
        FirstName::parse("Alice").unwrap(),
        LastName::parse("Anderson").unwrap(),
    );
    repo.create_user(&user).unwrap();
    let count = repo.count_users().unwrap();
    assert_eq!(count, 1);
}

#[test]
fn sqlite_create_and_count_user_in_memory() {
    let repo = fresh_repo();

    let user = User::new(
        Email::parse("alice@example.com").unwrap(),
        FirstName::parse("Alice").unwrap(),
        LastName::parse("Anderson").unwrap(),
    );
    repo.create_user(&user).unwrap();
    let count = repo.count_users().unwrap();
    assert_eq!(count, 1);
}

#[test]
fn mock_repository_happy_path() {
    let repo = fresh_repo();
    let user = User::new(
        Email::parse("eve@example.com").unwrap(),
        FirstName::parse("Eve").unwrap(),
        LastName::parse("Evans").unwrap(),
    );
    repo.create_user(&user).unwrap();
    let count = repo.count_users().unwrap();
    assert_eq!(count, 1);
}

#[test]
fn sqlite_mock_repository_happy_path() {
    let repo = fresh_repo();
    let user = User::new(
        Email::parse("eve@example.com").unwrap(),
        FirstName::parse("Eve").unwrap(),
        LastName::parse("Evans").unwrap(),
    );
    repo.create_user(&user).unwrap();
    let count = repo.count_users().unwrap();
    assert_eq!(count, 1);
}

#[test]
fn duplicate_email_insert_maps_error() {
    let repo = fresh_repo();
    let first = User::new(
        Email::parse("bob@example.com").unwrap(),
        FirstName::parse("Bob").unwrap(),
        LastName::parse("Builder").unwrap(),
    );
    repo.create_user(&first).unwrap();
    let second = User::new(
        Email::parse("bob@example.com").unwrap(),
        FirstName::parse("Robert").unwrap(),
        LastName::parse("Builder").unwrap(),
    );
    let err = repo.create_user(&second).unwrap_err();
    assert!(matches!(err, SqliteRepoError::DuplicateEmail));
    assert_eq!(repo.count_users().unwrap(), 1);
}

#[test]
fn from_sql_classifies_unique_constraint() {
    let unique = rusqlite::Error::SqliteFailure(rusqlite::ffi::Error::new(2067), None);
    assert!(matches!(SqliteRepoError::from_sql(unique), SqliteRepoError::DuplicateEmail));

    let busy = rusqlite::Error::SqliteFailure(rusqlite::ffi::Error::new(5), None);
    assert!(matches!(SqliteRepoError::from_sql(busy), SqliteRepoError::Sql(_)));

    let other = rusqlite::Error::InvalidQuery;
    assert!(matches!(SqliteRepoError::from_sql(other), SqliteRepoError::Sql(_)));
}

#[test]
fn status_to_str_values() {
    assert_eq!(status_to_str(UserStatus::Active), "active");
    assert_eq!(status_to_str(UserStatus::Inactive), "inactive");
    assert_eq!(status_to_str(UserStatus::Suspended), "suspended");
}
