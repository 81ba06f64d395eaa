//! Domain events, stamped with milliseconds since the Unix epoch.

use vstd::prelude::*;

use crate::types::UserId;

verus! {

/// An event the domain raises.
#[derive(Clone, Debug)]
pub enum DomainEvent {
    UserActivated { user_id: UserId, at: i64 },
}

} // verus!
