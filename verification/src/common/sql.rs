//! A query as it was found in a source file.

use vstd::prelude::*;

verus! {

/// A range of bytes in a source file, from `lo` up to `hi`.
#[derive(Debug, Clone, Copy, PartialEq, Eq, Structural)]
pub struct Span {
    pub lo: u32,
    pub hi: u32,
}

/// One piece of SQL text taken from a tagged template.
#[derive(Debug, PartialEq, Eq)]
pub struct SQL {
    /// The text between two interpolations of the template.
    pub query: String,
    /// The name of the variable that the template is bound to, where the
    /// template stands in a binding with a plain name.
    pub binding_name: Option<String>,
    /// Where the statement that holds the template stands in the source.
    pub span: Span,
    /// The name under which the tag is known in the source file.
    pub import_alias: String,
}

impl Clone for SQL {
    fn clone(&self) -> (out: Self)
        ensures
            out == *self,
    {
        SQL {
            query: self.query.clone(),
            binding_name: match &self.binding_name {
                Some(name) => Some(name.clone()),
                None => None,
            },
            span: self.span,
            import_alias: self.import_alias.clone(),
        }
    }
}

} // verus!
