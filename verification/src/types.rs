//! Plain domain types for the activation use case: a numeric user
//! identifier and a user with an activation flag.

use vstd::prelude::*;

verus! {

/// Numeric identifier of a [`User`].
#[derive(Clone, Copy, Debug, PartialEq, Eq, Hash, Structural)]
pub struct UserId(pub u64);

impl From<u64> for UserId {
    /// Wraps the number unchanged.
    fn from(v: u64) -> (r: UserId) {
        UserId(v)
    }
}

impl vstd::std_specs::convert::FromSpecImpl<u64> for UserId {
    open spec fn obeys_from_spec() -> bool {
        true
    }

    open spec fn from_spec(v: u64) -> UserId {
        UserId(v)
    }
}

/// A user as the activation use case sees it.
#[derive(Clone, Debug)]
pub struct User {
    pub id: UserId,
    pub active: bool,
}

impl User {
    /// A fresh, not yet activated user.
    pub fn new(id: UserId) -> (r: User)
        ensures
            r.id == id,
            !r.active,
    {
        User { id, active: false }
    }

    /// Activates the user and reports the event, stamped with `now`.
    pub fn activate(&mut self, now: i64) -> (r: crate::events::DomainEvent)
        ensures
            final(self).id == old(self).id,
            final(self).active,
            r == (crate::events::DomainEvent::UserActivated { user_id: old(self).id, at: now }),
    {
        self.active = true;
        crate::events::DomainEvent::UserActivated { user_id: self.id, at: now }
    }
}

} // verus!
