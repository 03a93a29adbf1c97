//! A verified model of a small credential-store HTTP service.
//!
//! The service keeps `username -> password` records in a database table and
//! answers three routes: a health check, a lookup by username, and an upsert.
//! This crate holds the verified core: the table model with its
//! one-record-per-username invariant, the semantics of the two parameterized
//! statements, the exact text of every statement the service issues, and the
//! decision logic of each route handler. The network server and the database
//! driver live outside the crate and feed plain values into these functions.

pub mod laws;
pub mod routes;
pub mod schema;
pub mod store;
