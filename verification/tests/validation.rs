use sqlx_ts::common::diagnostic::{Diagnostic, DiagnosticKind};
use sqlx_ts::common::sql::{Span, SQL};
use sqlx_ts::db::explain::{explain, explain_query};

fn query(text: &str, lo: u32) -> SQL {
    SQL {
        query: text.to_string(),
        binding_name: None,
        span: Span { lo, hi: lo + 5 },
        import_alias: "sql".to_string(),
    }
}

#[test]
fn explain_statement_is_the_query_after_explain() {
    assert_eq!(explain_query(&query("SELECT 1", 0)), "EXPLAIN SELECT 1");
    assert_eq!(explain_query(&query("", 0)), "EXPLAIN ");
}

#[test]
fn accepted_queries_give_no_report() {
    let sqls = vec![query("SELECT 1", 0), query("SELECT 2", 10)];
    let report = explain(&sqls, &vec![None, None]);
    assert!(!report.failed);
    assert_eq!(report.diagnostics, vec![]);
    let none = explain(&vec![], &vec![]);
    assert!(!none.failed);
    assert_eq!(none.diagnostics, vec![]);
}

#[test]
fn each_refusal_is_reported_at_its_span() {
    let sqls = vec![query("SELECT a", 0), query("SELECT 2", 10), query("SELECT c", 20)];
    let errors = vec![
        Some("column \"a\" does not exist".to_string()),
        None,
        Some("column \"c\" does not exist".to_string()),
    ];
    let report = explain(&sqls, &errors);
    assert!(report.failed);
    assert_eq!(
        report.diagnostics,
        vec![
            Diagnostic {
                kind: DiagnosticKind::ValidationFailed,
                span: Span { lo: 0, hi: 5 },
                message: "column \"a\" does not exist".to_string(),
            },
            Diagnostic {
                kind: DiagnosticKind::ValidationFailed,
                span: Span { lo: 20, hi: 25 },
                message: "column \"c\" does not exist".to_string(),
            },
        ]
    );
}
