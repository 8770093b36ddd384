//! What is reported to the user about a source file or a query.

use crate::common::sql::Span;
use vstd::prelude::*;

verus! {

/// The kinds of report.
#[derive(Debug, Clone, Copy, PartialEq, Eq, Structural)]
pub enum DiagnosticKind {
    /// The source file cannot be parsed.
    SourceParse,
    /// The SQL of a tagged template cannot be parsed.
    SqlParse,
    /// The database refused the query.
    ValidationFailed,
    /// The database did not answer in time.
    ValidationTimeout,
    UnknownTable,
    UnknownColumn,
    /// A selected expression that is no plain column has no alias.
    MissingAliasForFunctions,
    /// `?` and `$n` stand in one query.
    PlaceholderMix,
    /// The parameters of a query leave out an index.
    PlaceholderGap,
    /// An annotation that is not understood; a warning.
    AnnotationUnrecognized,
}

/// One report, with the place in the source that it is about.
#[derive(Debug, PartialEq, Eq)]
pub struct Diagnostic {
    pub kind: DiagnosticKind,
    pub span: Span,
    pub message: String,
}

/// The mathematical value of a [`Diagnostic`].
pub struct DiagnosticView {
    pub kind: DiagnosticKind,
    pub span: Span,
    pub message: Seq<char>,
}

impl View for Diagnostic {
    type V = DiagnosticView;

    open spec fn view(&self) -> DiagnosticView {
        DiagnosticView { kind: self.kind, span: self.span, message: self.message@ }
    }
}

/// The values of a sequence of reports.
pub open spec fn diagnostic_views(reports: Seq<Diagnostic>) -> Seq<DiagnosticView> {
    reports.map_values(|report: Diagnostic| report@)
}

} // verus!
