//! Validation of queries by the database.

pub mod explain;
