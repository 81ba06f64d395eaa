//! A hexagonal-architecture skeleton for user account management.
//!
//! The domain layer validates email and name value objects, builds the
//! `User` aggregate, and persists it through a SQLite-backed repository,
//! mapping a unique-constraint violation to a duplicate-email error.

use vstd::prelude::*;

pub mod clock;
pub mod contracts;
pub mod errors;
pub mod events;
pub mod http_api;
pub mod ids;
pub mod pg;
pub mod publisher;
pub mod repository;
pub mod service;
pub mod telemetry;
pub mod text;
pub mod types;
pub mod user_management;
pub mod usecases;

verus! {

/// Construct router/handlers, wire middleware, etc. Intentionally
/// minimal for this scaffold.
pub fn build_http() {
}

/// Construct consumer/streams; minimal scaffold.
pub fn build_kafka() {
}

/// Construct lambda handler entrypoint(s); minimal scaffold.
pub fn build_lambda() {
}

} // verus!
