//! Verified core of a newsletter service: validation of subscriber data,
//! idempotency keys, and the decisions taken by its HTTP handlers.

pub mod domain;
pub mod idempotency;
pub mod utils;
pub mod routes;
