//! Row model and mappings for the (stub) Postgres repository.

use vstd::prelude::*;

use crate::types::{User, UserId};

verus! {

/// A user row as the Postgres table holds it.
#[derive(Debug, Clone)]
pub struct UserRow {
    pub id: i64,
    pub active: bool,
}

/// Reads a row into the domain user; the identifier is reinterpreted as
/// unsigned.
pub fn to_domain(row: UserRow) -> (r: User)
    ensures
        r.id == UserId(row.id as u64),
        r.active == row.active,
{
    User { id: UserId(row.id as u64), active: row.active }
}

/// Writes a domain user as a row; the identifier is reinterpreted as
/// signed.
pub fn from_domain(u: &User) -> (r: UserRow)
    ensures
        r.id == u.id.0 as i64,
        r.active == u.active,
{
    UserRow { id: u.id.0 as i64, active: u.active }
}

/// The stub Postgres repository; its port implementation lives with the
/// asynchronous plumbing.
#[derive(Debug)]
pub struct PgUserRepo;

} // verus!
