//! No-op observability facade: spans and counters that keep their names
//! and do nothing, as the scaffold leaves them.

use vstd::prelude::*;

verus! {

/// A use-case span; ending it is a no-op.
#[derive(Debug)]
pub struct UsecaseSpan;

/// Starts a no-op span for the named use case.
pub fn usecase_span(_name: &str) -> UsecaseSpan {
    UsecaseSpan
}

/// A named counter; incrementing it is a no-op.
#[derive(Debug)]
pub struct Counter(&'static str);

impl Counter {
    /// The counter's name.
    pub closed spec fn spec_name(&self) -> Seq<char> {
        self.0@
    }

    /// Adds to the counter; a no-op in this scaffold.
    pub fn inc_by(&self, _v: u64) {
    }
}

/// Makes a counter with the given name.
pub fn counter(name: &'static str) -> (r: Counter)
    ensures
        r.spec_name() == name@,
{
    Counter(name)
}

/// Bumps the request counter once.
pub fn requests_counter() {
    let c = counter("http.requests.total");
    c.inc_by(1);
}

} // verus!
