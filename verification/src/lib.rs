//! A single-connection execution core for an embedded SQL engine.
//!
//! One worker owns the connection and runs the statements that callers
//! submit, one at a time and in the order they were submitted. A transaction
//! that stays open for too long is rolled back, and the next submission is
//! told so.

pub mod actor;
pub mod engine;
pub mod executor;
pub mod front_door;
pub mod opener;
pub mod query;
pub mod statement;
