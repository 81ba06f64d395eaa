//! The compute side of the HTTP endpoints: input validation, use-case
//! dispatch, and response construction. The web framework around it only
//! decodes the request into [`CreateUserRequest`] and turns the outcome
//! into a status code and body.

use vstd::prelude::*;

use crate::clock;
use crate::ids;
use crate::repository::{SqliteUserRepository, status_to_str};
use crate::types;
use crate::usecases::{AddUserError, AddUserUseCase, UserCommand};
use crate::user_management::{Email, FirstName, LastName, User, UserStatus, email_ok, name_ok,
    user_wf};

verus! {

/// The decoded body of a create-user request.
#[derive(Debug, Clone)]
pub struct CreateUserRequest {
    pub email: String,
    pub first_name: String,
    pub last_name: String,
}

/// The document returned for a created user.
#[derive(Debug, Clone)]
pub struct CreateUserResponse {
    pub user_id: String,
    pub email: String,
    pub first_name: String,
    pub last_name: String,
    pub status: String,
    pub created_at: String,
    pub updated_at: String,
}

/// What the create-user endpoint answers; the web layer maps each
/// variant to a status code.
#[derive(Debug)]
pub enum CreateUserOutcome {
    /// The user was stored; answered as 201 Created.
    Created(CreateUserResponse),
    /// The email failed validation; answered as 400.
    InvalidEmail,
    /// The first name failed validation; answered as 400.
    InvalidFirstName,
    /// The last name failed validation; answered as 400.
    InvalidLastName,
    /// The email is already stored; answered as 409 Conflict.
    DuplicateEmail,
    /// Another storage failure; answered as 500.
    PersistFailure(String),
}

/// Renders a user as the created-user response document.
pub fn build_response(user: &User) -> (r: CreateUserResponse)
    requires
        user_wf(user),
    ensures
        r.user_id@ == ids::uuid_str(user.user_id as nat),
        r.email@ == user.email@,
        r.first_name@ == user.first_name@,
        r.last_name@ == user.last_name@,
        user.status == UserStatus::Active ==> r.status@ == "active"@,
        user.status == UserStatus::Inactive ==> r.status@ == "inactive"@,
        user.status == UserStatus::Suspended ==> r.status@ == "suspended"@,
        r.created_at@ == clock::rfc3339_of(user.created_at as int),
        r.updated_at@ == clock::rfc3339_of(user.updated_at as int),
{
    CreateUserResponse {
        user_id: ids::uuid_hyphenated(user.user_id),
        email: user.email.as_str().to_owned(),
        first_name: user.first_name.as_str().to_owned(),
        last_name: user.last_name.as_str().to_owned(),
        status: status_to_str(user.status).to_owned(),
        created_at: clock::format_rfc3339(user.created_at),
        updated_at: clock::format_rfc3339(user.updated_at),
    }
}

/// Turns the add-user use case's result into the endpoint's outcome:
/// a created user is rendered with [`build_response`], the duplicate
/// error answers as `DuplicateEmail` and nothing else does, and any
/// other persistence failure answers as `PersistFailure` carrying its
/// message unchanged.
pub fn respond(res: Result<User, AddUserError>) -> (r: CreateUserOutcome)
    requires
        res matches Ok(u) ==> user_wf(&u),
    ensures
        res matches Ok(u) ==> (r matches CreateUserOutcome::Created(resp) && {
            &&& resp.user_id@ == ids::uuid_str(u.user_id as nat)
            &&& resp.email@ == u.email@
            &&& resp.first_name@ == u.first_name@
            &&& resp.last_name@ == u.last_name@
            &&& (u.status == UserStatus::Active ==> resp.status@ == "active"@)
            &&& resp.created_at@ == clock::rfc3339_of(u.created_at as int)
            &&& resp.updated_at@ == clock::rfc3339_of(u.updated_at as int)
        }),
        res matches Err(e) ==> {
            &&& (r is DuplicateEmail <==> e is DuplicateEmail)
            &&& (e matches AddUserError::Persist(m) ==> (r matches
                CreateUserOutcome::PersistFailure(kept) && kept == m))
            &&& (r is DuplicateEmail || r is PersistFailure)
        },
{
    match res {
        Ok(user) => CreateUserOutcome::Created(build_response(&user)),
        Err(AddUserError::DuplicateEmail) => CreateUserOutcome::DuplicateEmail,
        Err(AddUserError::Persist(e)) => CreateUserOutcome::PersistFailure(e),
    }
}

/// Validates the payload, runs the add-user use case against the given
/// repository, and builds the response. Validation is decided here:
/// a rejected field is answered exactly when its text fails the value
/// object's rule, the email checked first, then the first name, then the
/// last name. Whether a valid payload is stored or refused is decided by
/// the rows already in the store.
pub fn create_user(repo: SqliteUserRepository, payload: &CreateUserRequest) -> (r:
    CreateUserOutcome)
    ensures
        r is InvalidEmail <==> !email_ok(payload.email@),
        r is InvalidFirstName <==> email_ok(payload.email@) && !name_ok(payload.first_name@),
        r is InvalidLastName <==> email_ok(payload.email@) && name_ok(payload.first_name@)
            && !name_ok(payload.last_name@),
        r matches CreateUserOutcome::Created(resp) ==> {
            &&& resp.email@ == crate::text::trim_spec(payload.email@)
            &&& resp.first_name@ == crate::text::trim_spec(payload.first_name@)
            &&& resp.last_name@ == crate::text::trim_spec(payload.last_name@)
            &&& resp.status@ == "active"@
            &&& resp.created_at@ == resp.updated_at@
            &&& exists|id: u128| id != 0 && resp.user_id@ == ids::uuid_str(id as nat)
        },
        (r is DuplicateEmail || r is PersistFailure) ==> email_ok(payload.email@) && name_ok(
            payload.first_name@,
        ) && name_ok(payload.last_name@),
{
    let email = match Email::parse(payload.email.as_str()) {
        Ok(v) => v,
        Err(_) => {
            return CreateUserOutcome::InvalidEmail;
        },
    };
    let first = match FirstName::parse(payload.first_name.as_str()) {
        Ok(v) => v,
        Err(_) => {
            return CreateUserOutcome::InvalidFirstName;
        },
    };
    let last = match LastName::parse(payload.last_name.as_str()) {
        Ok(v) => v,
        Err(_) => {
            return CreateUserOutcome::InvalidLastName;
        },
    };
    let uc = AddUserUseCase::new(repo);
    let res = uc.execute(UserCommand::Add { email, first_name: first, last_name: last });
    respond(res)
}

/// The body of the health check's answer.
pub fn health_body() -> (r: &'static str)
    ensures
        r@ == "{\"status\":\"ok\"}"@,
{
    "{\"status\":\"ok\"}"
}

/// The decoded body of an activate-user request.
#[derive(Debug, Clone)]
pub struct ActivateUserRequest {
    pub id: u64,
}

/// Reads the target user's identifier out of the request.
pub fn to_user_id(req: ActivateUserRequest) -> (r: types::UserId)
    ensures
        r == types::UserId(req.id),
{
    types::UserId(req.id)
}

} // verus!
