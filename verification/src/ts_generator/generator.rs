//! The file of declarations that is written for a source file.

use crate::ts_generator::types::ts_query::{render_query, QueryShape, TsQuery};
use vstd::prelude::*;
use vstd::string::StringExecFns;

verus! {

/// The comment that a file of declarations opens with.
pub open spec fn file_header() -> Seq<char> {
    "/* TypeScript types of the SQL queries of this project, written by sqlx-ts. */\n"@
}

/// The shapes of the queries of a file.
pub open spec fn shapes_of(queries: Seq<TsQuery>) -> Seq<QueryShape> {
    queries.map_values(|query: TsQuery| query@)
}

/// The declarations of the first `n` of `shapes`, one query after the other.
pub open spec fn render_blocks(shapes: Seq<QueryShape>, n: nat) -> Seq<char>
    decreases n,
{
    if n == 0 || n > shapes.len() {
        Seq::empty()
    } else {
        render_blocks(shapes, (n - 1) as nat) + render_query(shapes[n - 1])
    }
}

/// A file of declarations: the header, then the three declarations of each
/// query, with empty lines between them, in the order of the queries.
pub open spec fn render_file(shapes: Seq<QueryShape>) -> Seq<char> {
    file_header() + render_blocks(shapes, shapes.len())
}

/// The text of the file of declarations for `queries`.
pub fn declarations_file(queries: &Vec<TsQuery>) -> (out: String)
    ensures
        out@ == render_file(shapes_of(queries@)),
{
    let mut out = String::from_str(
        "/* TypeScript types of the SQL queries of this project, written by sqlx-ts. */\n",
    );
    let mut i: usize = 0;
    while i < queries.len()
        invariant
            i <= queries.len(),
            out@ == file_header() + render_blocks(shapes_of(queries@), i as nat),
        decreases queries.len() - i,
    {
        let block = queries[i].to_string();
        out.append(block.as_str());
        i = i + 1;
    }
    out
}

} // verus!
