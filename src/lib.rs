//! A small record store for user records: the `User` entity, an in-memory
//! store with the same semantics as the SQL-backed one, the interpretation of
//! database outcomes, and the decisions of the HTTP adapter.

pub mod user;
pub mod error;
pub mod outcome;
pub mod table;
pub mod laws;
pub mod http;
