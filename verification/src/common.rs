//! What the parts of the library share: source spans and the queries found
//! in a source file, reports to the user, the kinds of database, and the
//! settings of the connection.

pub mod diagnostic;
pub mod dotenv;
pub mod sql;
pub mod types;
