//! Generation of TypeScript declarations from the shape of a query.

pub mod annotations;
pub mod errors;
pub mod generator;
pub mod laws;
pub mod naming;
pub mod placeholder;
pub mod types;
