//! Stub outbound service client, as the scaffold leaves it.

use vstd::prelude::*;

verus! {

/// A client for an outbound service that is not wired up.
#[derive(Debug)]
pub struct FooClient;

impl FooClient {
    /// Makes the stub client.
    pub fn new() -> FooClient {
        FooClient
    }

    /// Calling the service is a no-op and always succeeds.
    pub fn call(&self) -> (r: Result<(), ()>)
        ensures
            r is Ok,
    {
        Ok(())
    }
}

} // verus!
