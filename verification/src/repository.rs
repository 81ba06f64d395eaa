//! SQLite-backed repository for persisting users.
//!
//! The database calls go through trusted wrappers around rusqlite; the
//! logic around them — rendering a user as row values and classifying a
//! unique-constraint violation as a duplicate email — is verified.

use vstd::prelude::*;

use crate::clock;
use crate::ids;
use crate::user_management::{User, UserStatus, user_wf};

verus! {

#[verifier::external_type_specification]
#[verifier::external_body]
pub struct ExConnection(rusqlite::Connection);

#[verifier::external_type_specification]
#[verifier::external_body]
pub struct ExSqlError(rusqlite::Error);

/// The SQLite extended result code of a failed statement, where the
/// failure carries one.
#[derive(Debug, Clone, Copy, PartialEq, Eq, Structural)]
pub enum SqlFailureCode {
    Extended(i32),
    Absent,
}

/// The extended result code `SQLITE_CONSTRAINT_UNIQUE`: a row broke a
/// unique constraint, here the one on the email column.
pub open spec fn duplicate_email_code(code: SqlFailureCode) -> bool {
    code == SqlFailureCode::Extended(2067i32)
}

/// The code a failed rusqlite call carries, a function of the error
/// value alone.
pub uninterp spec fn sql_code_of(e: rusqlite::Error) -> SqlFailureCode;

/// Relies on rusqlite's `Error`: the `SqliteFailure` variant carries the
/// SQLite extended result code of the failed statement; the remaining
/// variants report conditions inside rusqlite itself and carry none.
#[verifier::external_body]
fn sql_extended_code(e: &rusqlite::Error) -> (r: SqlFailureCode)
    ensures
        r == sql_code_of(*e),
{
    match e {
        rusqlite::Error::SqliteFailure(f, _) => SqlFailureCode::Extended(f.extended_code),
        _ => SqlFailureCode::Absent,
    }
}

/// Relies on rusqlite's `Connection::open`: opens or creates a SQLite
/// database at the given path.
#[verifier::external_body]
fn open_connection(path: &str) -> Result<rusqlite::Connection, rusqlite::Error> {
    rusqlite::Connection::open(path)
}

/// Relies on rusqlite's `Connection::open_in_memory`: opens a fresh,
/// empty in-memory SQLite database.
#[verifier::external_body]
fn open_memory_connection() -> Result<rusqlite::Connection, rusqlite::Error> {
    rusqlite::Connection::open_in_memory()
}

/// Relies on rusqlite's `Connection::execute_batch`: runs the statements
/// of the batch, here the schema setup.
#[verifier::external_body]
fn run_batch(conn: &rusqlite::Connection, sql: &str) -> Result<(), rusqlite::Error> {
    conn.execute_batch(sql)
}

/// Relies on rusqlite's `Connection::execute`: runs the users INSERT with
/// the seven bound values; a successful single-row INSERT reports exactly
/// one changed row.
#[verifier::external_body]
fn insert_user_row(
    conn: &rusqlite::Connection,
    user_id: &Vec<u8>,
    email: &str,
    first_name: &str,
    last_name: &str,
    status: &str,
    created_at: &str,
    updated_at: &str,
) -> (r: Result<usize, rusqlite::Error>)
    ensures
        r matches Ok(n) ==> n == 1,
{
    let p: [&dyn rusqlite::types::ToSql; 7] =
        [user_id, &email, &first_name, &last_name, &status, &created_at, &updated_at];
    conn.execute(
        "INSERT INTO users (user_id, email, first_name, last_name, status, created_at, updated_at) VALUES (?1, ?2, ?3, ?4, ?5, ?6, ?7)",
        &p[..],
    )
}

/// Relies on rusqlite's `Connection::query_row` and `Row::get`: the one
/// value of `SELECT COUNT(1)`, which SQL defines as non-negative.
#[verifier::external_body]
fn query_count(conn: &rusqlite::Connection) -> (r: Result<i64, rusqlite::Error>)
    ensures
        r matches Ok(n) ==> n >= 0,
{
    conn.query_row("SELECT COUNT(1) FROM users", [], |row| row.get(0))
}

/// Adapter-specific repository error.
#[derive(Debug)]
pub enum SqliteRepoError {
    /// Email is duplicated (violates the UNIQUE constraint).
    DuplicateEmail,
    /// Other underlying SQLite error.
    Sql(rusqlite::Error),
}

/// Maps a failed statement to the repository error: exactly the extended
/// result code `SQLITE_CONSTRAINT_UNIQUE` (2067) is a duplicate email;
/// every other failure is passed through unchanged.
pub fn classify_sql_failure(code: SqlFailureCode, e: rusqlite::Error) -> (r: SqliteRepoError)
    ensures
        duplicate_email_code(code) <==> r is DuplicateEmail,
        !duplicate_email_code(code) ==> (r matches SqliteRepoError::Sql(err) && err == e),
{
    match code {
        SqlFailureCode::Extended(c) => {
            if c == 2067 {
                SqliteRepoError::DuplicateEmail
            } else {
                SqliteRepoError::Sql(e)
            }
        },
        SqlFailureCode::Absent => SqliteRepoError::Sql(e),
    }
}

impl SqliteRepoError {
    /// Reads the failed statement's extended result code and classifies
    /// it with [`classify_sql_failure`]: exactly an error carrying
    /// `SQLITE_CONSTRAINT_UNIQUE` becomes `DuplicateEmail`; every other
    /// error is passed through unchanged.
    pub fn from_sql(e: rusqlite::Error) -> (r: SqliteRepoError)
        ensures
            duplicate_email_code(sql_code_of(e)) <==> r is DuplicateEmail,
            !duplicate_email_code(sql_code_of(e)) ==> (r matches SqliteRepoError::Sql(err) && err
                == e),
    {
        let code = sql_extended_code(&e);
        classify_sql_failure(code, e)
    }
}

/// The repository error `err` is what classifying the underlying failed
/// call `e` yields: `DuplicateEmail` exactly on the unique-constraint
/// code, and `e` itself, unchanged, otherwise.
pub open spec fn classified_from(err: SqliteRepoError, e: rusqlite::Error) -> bool {
    &&& (err is DuplicateEmail <==> duplicate_email_code(sql_code_of(e)))
    &&& (!duplicate_email_code(sql_code_of(e)) ==> (err matches SqliteRepoError::Sql(inner)
        && inner == e))
}

/// Writes a status the way the users table stores it.
pub fn status_to_str(s: UserStatus) -> (r: &'static str)
    ensures
        s == UserStatus::Active ==> r@ == "active"@,
        s == UserStatus::Inactive ==> r@ == "inactive"@,
        s == UserStatus::Suspended ==> r@ == "suspended"@,
{
    match s {
        UserStatus::Active => "active",
        UserStatus::Inactive => "inactive",
        UserStatus::Suspended => "suspended",
    }
}

/// SQLite-backed repository for persisting users.
pub struct SqliteUserRepository {
    conn: rusqlite::Connection,
}

impl SqliteUserRepository {
    /// Opens (or creates) a SQLite database at `path`. Whether this
    /// succeeds depends on the file system alone.
    pub fn new(path: &str) -> Result<SqliteUserRepository, rusqlite::Error> {
        let conn = match open_connection(path) {
            Ok(c) => c,
            Err(e) => {
                return Err(e);
            },
        };
        Ok(SqliteUserRepository { conn })
    }

    /// Opens an in-memory SQLite database (useful for tests).
    pub fn open_in_memory() -> Result<SqliteUserRepository, rusqlite::Error> {
        let conn = match open_memory_connection() {
            Ok(c) => c,
            Err(e) => {
                return Err(e);
            },
        };
        Ok(SqliteUserRepository { conn })
    }

    /// Initializes schema objects required for user persistence: the
    /// users table, with a unique constraint on the email column.
    pub fn init_schema(&self) -> Result<(), rusqlite::Error> {
        run_batch(
            &self.conn,
            "CREATE TABLE IF NOT EXISTS users (\n                user_id     TEXT PRIMARY KEY,\n                email       TEXT NOT NULL UNIQUE,\n                first_name  TEXT NOT NULL,\n                last_name   TEXT NOT NULL,\n                status      TEXT NOT NULL,\n                created_at  TEXT NOT NULL,\n                updated_at  TEXT NOT NULL\n            );",
        )
    }

    /// Persists a newly created user: the identifier as its sixteen
    /// big-endian bytes, the timestamps in RFC 3339, the status as its
    /// table text. Whether the insert succeeds depends on the rows
    /// already stored; every failure is the classification of the
    /// underlying SQLite failure, so `DuplicateEmail` comes back exactly
    /// when the statement failed with the unique-constraint code.
    pub fn create_user(&self, user: &User) -> (r: Result<(), SqliteRepoError>)
        requires
            user_wf(user),
        ensures
            r matches Err(err) ==> exists|e: rusqlite::Error| #[trigger] classified_from(err, e),
    {
        let id_bytes = ids::u128_be_bytes(user.user_id);
        let created_at = clock::format_rfc3339(user.created_at);
        let updated_at = clock::format_rfc3339(user.updated_at);
        let res = insert_user_row(
            &self.conn,
            &id_bytes,
            user.email.as_str(),
            user.first_name.as_str(),
            user.last_name.as_str(),
            status_to_str(user.status),
            created_at.as_str(),
            updated_at.as_str(),
        );
        match res {
            Ok(_) => Ok(()),
            Err(e) => {
                let ghost underlying = e;
                let err = SqliteRepoError::from_sql(e);
                proof {
                    assert(classified_from(err, underlying));
                }
                Err(err)
            },
        }
    }

    /// Fetches a user count (utility for tests/verification). On success
    /// the count is non-negative.
    pub fn count_users(&self) -> (r: Result<i64, rusqlite::Error>)
        ensures
            r matches Ok(n) ==> n >= 0,
    {
        query_count(&self.conn)
    }
}

} // verus!
