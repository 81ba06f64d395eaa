//! Stub event publisher for Kafka, as the scaffold leaves it.

use vstd::prelude::*;

verus! {

/// A publisher that accepts every event and drops it.
#[derive(Debug)]
pub struct KafkaPublisher;

impl KafkaPublisher {
    /// Makes the stub publisher.
    pub fn new() -> KafkaPublisher {
        KafkaPublisher
    }

    /// Publishing is a no-op and always succeeds.
    pub fn publish(&self) -> (r: Result<(), ()>)
        ensures
            r is Ok,
    {
        Ok(())
    }
}

} // verus!
