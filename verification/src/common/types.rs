//! Kinds that the configuration speaks of.

use vstd::prelude::*;

verus! {

/// The database that the queries of a source file are written for.
#[derive(Debug, Clone, Copy, PartialEq, Eq, Structural)]
pub enum DatabaseType {
    Postgres,
    Mysql,
}

} // verus!
