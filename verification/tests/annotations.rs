use sqlx_ts::ts_generator::annotations::{annotate, parse_annotations, parse_directive, Directive};
use sqlx_ts::ts_generator::types::ts_field_type::TsFieldType;
use sqlx_ts::ts_generator::types::ts_query::TsQuery;
use std::collections::BTreeMap;

fn unrecognized(text: &str) -> Option<Directive> {
    Some(Directive::Unrecognized(text.to_string()))
}

#[test]
fn param_directive_gives_index_and_type() {
    assert_eq!(
        parse_directive(" @param 1: string"),
        Some(Directive::Param { index: 1, param_type: TsFieldType::String })
    );
    assert_eq!(
        parse_directive("@param 12 :number "),
        Some(Directive::Param { index: 12, param_type: TsFieldType::Number })
    );
    assert_eq!(
        parse_directive("\t@param\t3:\tboolean\r"),
        Some(Directive::Param { index: 3, param_type: TsFieldType::Boolean })
    );
    assert_eq!(
        parse_directive("@param 0: Date"),
        Some(Directive::Param { index: 0, param_type: TsFieldType::Any })
    );
    assert_eq!(
        parse_directive("@param 2:"),
        Some(Directive::Param { index: 2, param_type: TsFieldType::Any })
    );
}

#[test]
fn result_directive_gives_name_and_types() {
    assert_eq!(
        parse_directive(" @result name: string | null "),
        Some(Directive::Result {
            name: "name".to_string(),
            types: vec![TsFieldType::String, TsFieldType::Null],
        })
    );
    assert_eq!(
        parse_directive("@result payload:object"),
        Some(Directive::Result { name: "payload".to_string(), types: vec![TsFieldType::Object] })
    );
    assert_eq!(
        parse_directive("@result a : number|boolean|string"),
        Some(Directive::Result {
            name: "a".to_string(),
            types: vec![TsFieldType::Number, TsFieldType::Boolean, TsFieldType::String],
        })
    );
    assert_eq!(
        parse_directive("@result x: | number"),
        Some(Directive::Result {
            name: "x".to_string(),
            types: vec![TsFieldType::Any, TsFieldType::Number],
        })
    );
}

#[test]
fn insert_param_directive_gives_row_column_and_type() {
    assert_eq!(
        parse_directive(" @insert-param 0,2: number "),
        Some(Directive::InsertParam { row: 0, column: 2, param_type: TsFieldType::Number })
    );
    assert_eq!(
        parse_directive("@insert-param 10 , 3 : null"),
        Some(Directive::InsertParam { row: 10, column: 3, param_type: TsFieldType::Null })
    );
}

#[test]
fn plain_comment_is_no_directive() {
    assert_eq!(parse_directive(""), None);
    assert_eq!(parse_directive("   "), None);
    assert_eq!(parse_directive(" selects the users "), None);
    assert_eq!(parse_directive(" see @param 1: string"), None);
}

#[test]
fn unknown_directives_are_kept_as_unrecognized() {
    assert_eq!(parse_directive(" @returns number "), unrecognized("@returns number"));
    assert_eq!(parse_directive("@"), unrecognized("@"));
    assert_eq!(parse_directive("@param"), unrecognized("@param"));
    assert_eq!(parse_directive("@param1: string"), unrecognized("@param1: string"));
    assert_eq!(parse_directive("@param 1 string"), unrecognized("@param 1 string"));
    assert_eq!(parse_directive("@param one: string"), unrecognized("@param one: string"));
    assert_eq!(parse_directive("@param -1: string"), unrecognized("@param -1: string"));
    assert_eq!(parse_directive("@param : string"), unrecognized("@param : string"));
    assert_eq!(
        parse_directive("@param 99999999999999999999999: string"),
        unrecognized("@param 99999999999999999999999: string")
    );
    assert_eq!(parse_directive("@result : string"), unrecognized("@result : string"));
    assert_eq!(parse_directive("@result name"), unrecognized("@result name"));
    assert_eq!(parse_directive("@insert-param 1: string"), unrecognized("@insert-param 1: string"));
    assert_eq!(parse_directive("@insert-param 1,: string"), unrecognized("@insert-param 1,: string"));
    assert_eq!(parse_directive("@insert-param 1,2 string"), unrecognized("@insert-param 1,2 string"));
    assert_eq!(parse_directive("@Param 1: string"), unrecognized("@Param 1: string"));
}

#[test]
fn annotations_are_read_from_leading_comments() {
    let query = "\n-- @param 1: string\n  /* @param 2: number */ -- plain comment\r\n/* @result name: string | null */\n-- @insert-param 0,1: boolean\n-- @oops\nSELECT id, name FROM users -- @param 3: object\nWHERE id = ? /* @param 4: null */";
    let annotations = parse_annotations(query);
    let mut params = BTreeMap::new();
    params.insert(1usize, TsFieldType::String);
    params.insert(2usize, TsFieldType::Number);
    assert_eq!(annotations.params, params);
    assert_eq!(annotations.results.len(), 1);
    assert_eq!(
        annotations.results.get("name"),
        Some(&vec![TsFieldType::String, TsFieldType::Null])
    );
    let mut row = BTreeMap::new();
    row.insert(1usize, TsFieldType::Boolean);
    let mut rows = BTreeMap::new();
    rows.insert(0usize, row);
    assert_eq!(annotations.insert_params, rows);
    assert_eq!(annotations.unrecognized, vec!["@oops".to_string()]);
}

#[test]
fn query_without_leading_comments_has_no_annotations() {
    for query in ["", "   ", "SELECT 1", "SELECT 1 -- @param 1: string", "- -@param 1: string", "/ * @param 1: string */", "-"] {
        let annotations = parse_annotations(query);
        assert!(annotations.params.is_empty(), "{:?}", query);
        assert_eq!(annotations.results.len(), 0);
        assert!(annotations.insert_params.is_empty());
        assert!(annotations.unrecognized.is_empty());
    }
}

#[test]
fn comments_may_end_with_the_query() {
    let line = parse_annotations("-- @param 1: number");
    assert_eq!(line.params.get(&1), Some(&TsFieldType::Number));
    let open = parse_annotations("/* @param 2: string");
    assert_eq!(open.params.get(&2), Some(&TsFieldType::String));
    let star = parse_annotations("/* @param 3: string *");
    assert_eq!(star.unrecognized, Vec::<String>::new());
    assert_eq!(star.params.get(&3), Some(&TsFieldType::Any));
    let empty = parse_annotations("/**/--\n/* */");
    assert!(empty.params.is_empty());
    assert!(empty.unrecognized.is_empty());
}

#[test]
fn later_directive_replaces_earlier_one() {
    let annotations = parse_annotations(
        "-- @param 1: string\n-- @param 1: number\n-- @result a: string\n-- @result a: null\n-- @insert-param 0,0: string\n-- @insert-param 0,1: number\n-- @insert-param 0,0: boolean\nSELECT 1",
    );
    assert_eq!(annotations.params.get(&1), Some(&TsFieldType::Number));
    assert_eq!(annotations.results.get("a"), Some(&vec![TsFieldType::Null]));
    let row = &annotations.insert_params[&0];
    assert_eq!(row.get(&0), Some(&TsFieldType::Boolean));
    assert_eq!(row.get(&1), Some(&TsFieldType::Number));
}

#[test]
fn annotated_parameter_is_written_as_annotated() {
    let query_text = "-- @param 1: string\n-- @result total: number | null\nSELECT COUNT(*) AS total FROM t WHERE id = ?";
    for inferred in [TsFieldType::Number, TsFieldType::Any, TsFieldType::Date] {
        let mut query = TsQuery::new("Q".to_string());
        let unrecognized = annotate(&mut query, parse_annotations(query_text));
        assert!(unrecognized.is_empty());
        assert_eq!(query.insert_param(&inferred, &Some("?".to_string())), Ok(()));
        assert_eq!(query.insert_result(Some("total"), &[TsFieldType::Any], true, "COUNT(*)"), Ok(()));
        assert_eq!(query.fmt_params(), "string");
        assert_eq!(query.fmt_result(), "total: number | null;");
    }
}
