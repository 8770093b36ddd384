//! Validation of queries by `EXPLAIN`: the statement that is sent for a
//! query, and what the answers of the database mean.

use crate::common::diagnostic::{diagnostic_views, Diagnostic, DiagnosticKind, DiagnosticView};
use crate::common::sql::SQL;
use vstd::prelude::*;
use vstd::string::StringExecFns;

verus! {

/// The statement that asks the database to plan `query` without running it.
pub open spec fn explain_statement(query: Seq<char>) -> Seq<char> {
    "EXPLAIN "@ + query
}

/// The statement that is sent to the database for `sql`.
pub fn explain_query(sql: &SQL) -> (statement: String)
    ensures
        statement@ == explain_statement(sql.query@),
{
    let mut statement = String::from_str("EXPLAIN ");
    statement.append(sql.query.as_str());
    statement
}

/// The reports for the first `n` queries: one for each query that the
/// database refused, with the span of the query and the message of the
/// database, in the order of the queries.
pub open spec fn refusals(sqls: Seq<SQL>, errors: Seq<Option<String>>, n: nat) -> Seq<
    DiagnosticView,
>
    decreases n,
{
    if n == 0 || n > sqls.len() || n > errors.len() {
        Seq::empty()
    } else {
        match errors[n - 1] {
            Some(message) => refusals(sqls, errors, (n - 1) as nat).push(
                DiagnosticView {
                    kind: DiagnosticKind::ValidationFailed,
                    span: sqls[n - 1].span,
                    message: message@,
                },
            ),
            None => refusals(sqls, errors, (n - 1) as nat),
        }
    }
}

/// The outcome of the validation of the queries of a source file.
#[derive(Debug)]
pub struct ExplainReport {
    /// Whether the database refused a query.
    pub failed: bool,
    /// One report for each refused query, in the order of the queries.
    pub diagnostics: Vec<Diagnostic>,
}

/// Reads the answers of the database to the `EXPLAIN` statements of `sqls`:
/// `errors` holds for each query, in the same order, the message with which
/// the database refused it, or `None`. Each refusal is reported at the span
/// of its query, and a refusal does not keep the later queries from being
/// looked at.
pub fn explain(sqls: &Vec<SQL>, errors: &Vec<Option<String>>) -> (report: ExplainReport)
    requires
        errors.len() == sqls.len(),
    ensures
        diagnostic_views(report.diagnostics@) == refusals(sqls@, errors@, sqls@.len()),
        report.failed == (report.diagnostics@.len() > 0),
{
    let mut failed = false;
    let mut diagnostics: Vec<Diagnostic> = Vec::new();
    let mut i: usize = 0;
    while i < sqls.len()
        invariant
            i <= sqls.len(),
            errors.len() == sqls.len(),
            failed == (diagnostics@.len() > 0),
            diagnostic_views(diagnostics@) == refusals(sqls@, errors@, i as nat),
        decreases sqls.len() - i,
    {
        if let Some(message) = &errors[i] {
            let ghost before = diagnostics@;
            diagnostics.push(
                Diagnostic {
                    kind: DiagnosticKind::ValidationFailed,
                    span: sqls[i].span,
                    message: message.clone(),
                },
            );
            failed = true;
            proof {
                assert(diagnostic_views(diagnostics@) =~= diagnostic_views(before).push(
                    diagnostics@[before.len() as int]@,
                ));
            }
        }
        i = i + 1;
    }
    ExplainReport { failed, diagnostics }
}

} // verus!
