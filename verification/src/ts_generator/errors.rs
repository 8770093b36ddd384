//! What can go wrong while the shape of a query is filled in.

use vstd::prelude::*;

verus! {

/// The reasons for which a part of a query is left out of its shape.
#[derive(Debug, PartialEq, Eq)]
pub enum TsGeneratorError {
    /// A selected expression that is no plain column has no alias; the text
    /// is that of the expression.
    MissingAliasForFunctions(String),
    /// A query uses both `?` and `$n` placeholders.
    PlaceholderMix,
}

} // verus!
