//! Application-layer use cases: adding a user and the decision at the
//! heart of activating one.

use vstd::prelude::*;

use crate::errors::ApplicationError;
use crate::events::DomainEvent;
use crate::repository::{SqliteRepoError, SqliteUserRepository};
use crate::types;
use crate::user_management::{Email, FirstName, LastName, User, UserStatus};

verus! {

/// Command envelope for user-related operations.
#[derive(Debug, Clone)]
pub enum UserCommand {
    /// Adds a new user with the provided attributes.
    Add { email: Email, first_name: FirstName, last_name: LastName },
}

/// Errors for the add-user use case.
#[derive(Debug, Clone, PartialEq, Eq)]
pub enum AddUserError {
    DuplicateEmail,
    Persist(String),
}

/// Maps a repository error to the use-case error: a duplicate email is
/// kept apart; any other failure becomes `Persist` with its rendered
/// text.
fn map_repo_error(e: SqliteRepoError) -> (r: AddUserError)
    ensures
        e is DuplicateEmail <==> r is DuplicateEmail,
        e is Sql ==> r is Persist,
{
    match e {
        SqliteRepoError::DuplicateEmail => AddUserError::DuplicateEmail,
        SqliteRepoError::Sql(err) => AddUserError::Persist(err.to_string()),
    }
}

/// Adds a new user by validating input, constructing the domain entity,
/// and persisting it via the repository abstraction.
pub struct AddUserUseCase {
    repo: SqliteUserRepository,
}

impl AddUserUseCase {
    /// The repository the use case drives; `execute` persists through it
    /// and no other.
    pub closed spec fn spec_repo(&self) -> SqliteUserRepository {
        self.repo
    }

    /// Creates a new use case instance holding exactly the given SQLite
    /// repository.
    pub fn new(repo: SqliteUserRepository) -> (r: AddUserUseCase)
        ensures
            r.spec_repo() == repo,
    {
        AddUserUseCase { repo }
    }

    /// Executes the command. On success the created user carries the
    /// command's attributes, a fresh non-zero identifier, an active
    /// status and equal timestamps; a broken unique constraint on the
    /// email comes back as `DuplicateEmail`, any other storage failure
    /// as `Persist`.
    pub fn execute(&self, cmd: UserCommand) -> (r: Result<User, AddUserError>)
        ensures
            cmd matches UserCommand::Add { email, first_name, last_name } ==> match r {
                Ok(u) => u.email == email && u.first_name == first_name && u.last_name == last_name
                    && u.status == UserStatus::Active && u.user_id != 0 && u.created_at
                    == u.updated_at && crate::user_management::user_wf(&u),
                Err(e) => e is DuplicateEmail || e is Persist,
            },
    {
        match cmd {
            UserCommand::Add { email, first_name, last_name } => {
                let user = User::new(email, first_name, last_name);
                match self.repo.create_user(&user) {
                    Ok(()) => Ok(user),
                    Err(e) => Err(map_repo_error(e)),
                }
            },
        }
    }
}

/// The decision at the heart of the activate-user use case: a missing
/// user is `NotFound`; a found user is activated, and the event carries
/// the user's identifier and the given timestamp.
pub fn activate_user_core(maybe: Option<types::User>, now: i64) -> (r: Result<
    (types::User, DomainEvent),
    ApplicationError,
>)
    ensures
        maybe is None ==> r matches Err(ApplicationError::NotFound),
        maybe matches Some(u) ==> (r matches Ok(p) && p.0.id == u.id && p.0.active && p.1
            == (DomainEvent::UserActivated { user_id: u.id, at: now })),
{
    match maybe {
        None => Err(ApplicationError::NotFound),
        Some(u) => {
            let mut user = u;
            let evt = user.activate(now);
            Ok((user, evt))
        },
    }
}

} // verus!
