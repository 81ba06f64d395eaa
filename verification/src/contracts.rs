//! Message contracts published on the event bus.

use vstd::prelude::*;

verus! {

/// Version 1 of the user-activated message.
#[derive(Debug, Clone)]
pub struct UserActivatedV1 {
    pub id: u64,
    pub at_epoch_ms: i64,
}

} // verus!
