//! The statement-level core of a property-graph store kept in a relational
//! backend.
//!
//! Every graph operation is split in two halves that never touch a
//! connection: a *request* that validates its arguments and yields the
//! statement to run with its parameters, and a *response* that turns what the
//! backend answered into the caller-facing result. The code that owns the
//! connection runs the statement in between.

pub mod outside;
pub mod error;
pub mod model;
pub mod query;
pub mod outcome;
pub mod datastore;
pub mod transaction;
pub mod metadata;
