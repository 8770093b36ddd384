use sqlx_ts::common::sql::{Span, SQL};
use sqlx_ts::ts_generator::errors::TsGeneratorError;
use sqlx_ts::ts_generator::generator::declarations_file;
use sqlx_ts::ts_generator::naming::query_name;
use sqlx_ts::ts_generator::placeholder::{capture_placeholder_digits, parse_placeholder_index};
use sqlx_ts::ts_generator::types::column_types::ColumnTypes;
use sqlx_ts::ts_generator::types::ts_field_type::TsFieldType;
use sqlx_ts::ts_generator::types::ts_query::TsQuery;
use std::collections::BTreeMap;

fn placeholder(text: &str) -> Option<String> {
    Some(text.to_string())
}

fn bound(name: &str, query: &str) -> SQL {
    SQL {
        query: query.to_string(),
        binding_name: Some(name.to_string()),
        span: Span { lo: 0, hi: 0 },
        import_alias: "sql".to_string(),
    }
}

fn keys(query: &TsQuery) -> Vec<i32> {
    query.params.keys().copied().collect()
}

#[test]
fn new_query_is_empty() {
    let query = TsQuery::new("Q".to_string());
    assert_eq!(query.name, "Q");
    assert!(query.params.is_empty());
    assert!(query.annotated_params.is_empty());
    assert!(query.insert_params.is_empty());
    assert!(query.annotated_insert_params.is_empty());
    assert_eq!(query.result.len(), 0);
    assert_eq!(query.annotated_results.len(), 0);
    assert_eq!(query.fmt_params(), "");
    assert_eq!(query.fmt_result(), "");
}

#[test]
fn query_name_is_upper_camel_case() {
    assert_eq!(query_name("someUpdateQuery"), "SomeUpdateQuery");
    assert_eq!(query_name("get_users"), "GetUsers");
    assert_eq!(query_name("Q"), "Q");
}

#[test]
fn query_for_sql_takes_the_binding_name() {
    let query = TsQuery::for_sql(&bound("someUpdateQuery", "UPDATE items SET name = ?")).unwrap();
    assert_eq!(query.name, "SomeUpdateQuery");
    assert!(query.params.is_empty());
}

#[test]
fn query_without_binding_name_has_no_declarations() {
    let sql = SQL {
        query: "SELECT 1".to_string(),
        binding_name: None,
        span: Span { lo: 3, hi: 9 },
        import_alias: "sql".to_string(),
    };
    assert!(TsQuery::for_sql(&sql).is_none());
}

#[test]
fn mysql_single_row_update() {
    let sql = bound(
        "someUpdateQuery",
        "UPDATE items JOIN inventory ON inventory.id = items.inventory_id SET items.name = ? WHERE inventory.id = ?",
    );
    let mut query = TsQuery::for_sql(&sql).unwrap();
    assert_eq!(query.insert_param(&TsFieldType::String, &placeholder("?")), Ok(()));
    assert_eq!(query.insert_param(&TsFieldType::Number, &placeholder("?")), Ok(()));
    assert_eq!(query.fmt_params(), "string, number");
    assert_eq!(query.fmt_result(), "");
    assert_eq!(
        query.to_string(),
        "\n\nexport type SomeUpdateQueryParams = [string, number];\n\n\nexport interface ISomeUpdateQueryResult {\n    \n};\n\n\nexport interface ISomeUpdateQueryQuery {\n    params: SomeUpdateQueryParams;\n    result: ISomeUpdateQueryResult;\n};\n\n"
    );
}

#[test]
fn question_marks_are_counted_from_one() {
    let mut query = TsQuery::new("Q".to_string());
    for value in [TsFieldType::String, TsFieldType::Number, TsFieldType::Boolean] {
        assert_eq!(query.insert_param(&value, &placeholder("?")), Ok(()));
    }
    assert_eq!(keys(&query), vec![1, 2, 3]);
    assert_eq!(query.params.len(), 3);
    assert_eq!(query.params[&1], TsFieldType::String);
    assert_eq!(query.params[&2], TsFieldType::Number);
    assert_eq!(query.params[&3], TsFieldType::Boolean);
    assert_eq!(query.fmt_params(), "string, number, boolean");
}

#[test]
fn postgres_indexed_params() {
    let mut query = TsQuery::for_sql(&bound("users", "SELECT id, name FROM users WHERE id = $2 AND name = $1")).unwrap();
    assert_eq!(query.insert_param(&TsFieldType::Number, &placeholder("$2")), Ok(()));
    assert_eq!(query.insert_param(&TsFieldType::String, &placeholder("$1")), Ok(()));
    assert_eq!(query.insert_result(Some("name"), &[TsFieldType::String], true, "name"), Ok(()));
    assert_eq!(query.insert_result(Some("id"), &[TsFieldType::Number], true, "id"), Ok(()));
    assert_eq!(keys(&query), vec![1, 2]);
    assert_eq!(query.fmt_params(), "string, number");
    assert_eq!(query.fmt_result(), "id: number;\n\tname: string;");
    assert_eq!(
        query.to_string(),
        "\n\nexport type UsersParams = [string, number];\n\n\nexport interface IUsersResult {\n    id: number;\n\tname: string;\n};\n\n\nexport interface IUsersQuery {\n    params: UsersParams;\n    result: IUsersResult;\n};\n\n"
    );
}

#[test]
fn numbered_placeholders_give_their_own_indices() {
    let mut query = TsQuery::new("Q".to_string());
    assert_eq!(query.insert_param(&TsFieldType::Number, &placeholder("$7")), Ok(()));
    assert_eq!(query.insert_param(&TsFieldType::String, &placeholder("$3")), Ok(()));
    assert_eq!(query.insert_param(&TsFieldType::Boolean, &placeholder("$7")), Ok(()));
    assert_eq!(query.insert_param(&TsFieldType::Date, &placeholder("$0")), Ok(()));
    assert_eq!(keys(&query), vec![0, 3, 7]);
    assert_eq!(query.params[&7], TsFieldType::Boolean);
    assert_eq!(query.fmt_params(), "Date, string, boolean");
}

#[test]
fn numbered_placeholder_is_found_inside_other_text() {
    let mut query = TsQuery::new("Q".to_string());
    assert_eq!(query.insert_param(&TsFieldType::Number, &placeholder("id = $12::int")), Ok(()));
    assert_eq!(query.insert_param(&TsFieldType::String, &placeholder("$ $4$5")), Ok(()));
    assert_eq!(keys(&query), vec![4, 12]);
}

#[test]
fn other_placeholders_change_nothing() {
    let mut query = TsQuery::new("Q".to_string());
    assert_eq!(query.insert_param(&TsFieldType::Number, &None), Ok(()));
    assert_eq!(query.insert_param(&TsFieldType::Number, &placeholder("")), Ok(()));
    assert_eq!(query.insert_param(&TsFieldType::Number, &placeholder(":name")), Ok(()));
    assert_eq!(query.insert_param(&TsFieldType::Number, &placeholder("$")), Ok(()));
    assert_eq!(query.insert_param(&TsFieldType::Number, &placeholder("??")), Ok(()));
    assert_eq!(query.insert_param(&TsFieldType::Number, &placeholder("1")), Ok(()));
    assert!(query.params.is_empty());
    assert_eq!(query.fmt_params(), "");
}

#[test]
fn mixed_placeholders_are_refused() {
    let mut query = TsQuery::new("Q".to_string());
    assert_eq!(query.insert_param(&TsFieldType::Number, &placeholder("?")), Ok(()));
    assert_eq!(
        query.insert_param(&TsFieldType::String, &placeholder("$1")),
        Err(TsGeneratorError::PlaceholderMix)
    );
    assert_eq!(keys(&query), vec![1]);
    assert_eq!(query.params[&1], TsFieldType::Number);

    let mut query = TsQuery::new("Q".to_string());
    assert_eq!(query.insert_param(&TsFieldType::Number, &placeholder("$2")), Ok(()));
    assert_eq!(
        query.insert_param(&TsFieldType::String, &placeholder("?")),
        Err(TsGeneratorError::PlaceholderMix)
    );
    assert_eq!(keys(&query), vec![2]);
    assert_eq!(query.insert_numbered_param(&TsFieldType::String, 5), Ok(()));
    assert_eq!(keys(&query), vec![2, 5]);
}

#[test]
fn counted_and_numbered_params_directly() {
    let mut query = TsQuery::new("Q".to_string());
    assert_eq!(query.insert_counted_param(&TsFieldType::Number), Ok(()));
    assert_eq!(query.insert_counted_param(&TsFieldType::String), Ok(()));
    assert_eq!(keys(&query), vec![1, 2]);
    assert_eq!(
        query.insert_numbered_param(&TsFieldType::String, 9),
        Err(TsGeneratorError::PlaceholderMix)
    );
    let mut query = TsQuery::new("Q".to_string());
    assert_eq!(query.insert_numbered_param(&TsFieldType::String, -4), Ok(()));
    assert_eq!(keys(&query), vec![-4]);
}

#[test]
fn placeholder_index_is_read_as_i32() {
    assert_eq!(parse_placeholder_index("1"), Some(1));
    assert_eq!(parse_placeholder_index("0012"), Some(12));
    assert_eq!(parse_placeholder_index("2147483647"), Some(2147483647));
    assert_eq!(parse_placeholder_index("2147483648"), None);
    assert_eq!(parse_placeholder_index(""), None);
    assert_eq!(parse_placeholder_index("$1"), None);
    assert_eq!(parse_placeholder_index("٣"), None);
}

#[test]
fn index_out_of_range_is_not_inserted() {
    let mut query = TsQuery::new("Q".to_string());
    assert_eq!(query.try_insert_param(&TsFieldType::Number, &placeholder("$2147483648")), None);
    assert_eq!(query.try_insert_param(&TsFieldType::Number, &placeholder("$99999999999999999999")), None);
    assert_eq!(query.try_insert_param(&TsFieldType::Number, &placeholder("$٣")), None);
    assert!(query.params.is_empty());
    assert_eq!(query.try_insert_param(&TsFieldType::Number, &placeholder("$2147483647")), Some(Ok(())));
    assert_eq!(query.try_insert_param(&TsFieldType::String, &placeholder("$1")), Some(Ok(())));
    assert_eq!(query.try_insert_param(&TsFieldType::String, &None), Some(Ok(())));
    assert_eq!(
        query.try_insert_param(&TsFieldType::String, &placeholder("?")),
        Some(Err(TsGeneratorError::PlaceholderMix))
    );
    assert_eq!(keys(&query), vec![1, 2147483647]);
}

#[test]
fn annotated_param_overrides_inferred_type() {
    let mut annotated = BTreeMap::new();
    annotated.insert(1usize, TsFieldType::String);
    for inferred in [TsFieldType::Number, TsFieldType::Any, TsFieldType::Boolean, TsFieldType::String] {
        let mut query = TsQuery::new("Q".to_string());
        query.set_annotated_params(annotated.clone());
        assert_eq!(query.insert_param(&inferred, &placeholder("?")), Ok(()));
        assert_eq!(query.insert_param(&inferred, &placeholder("?")), Ok(()));
        assert_eq!(query.params[&1], TsFieldType::String);
        assert_eq!(query.params[&2], inferred);
        assert!(query.fmt_params().starts_with("string, "));

        let mut query = TsQuery::new("Q".to_string());
        query.set_annotated_params(annotated.clone());
        assert_eq!(query.insert_param(&inferred, &placeholder("$1")), Ok(()));
        assert_eq!(query.fmt_params(), "string");
    }
}

#[test]
fn insert_with_multi_row_values() {
    let mut query = TsQuery::for_sql(&bound("insertQuery", "INSERT INTO t (a,b,c) VALUES (?, 'x', ?), (?, ?, 'y')")).unwrap();
    query.insert_value_params(&TsFieldType::Number, &(0, 0), &placeholder("?"));
    query.insert_value_params(&TsFieldType::Number, &(0, 2), &placeholder("?"));
    query.insert_value_params(&TsFieldType::Number, &(1, 0), &placeholder("?"));
    query.insert_value_params(&TsFieldType::String, &(1, 1), &placeholder("?"));
    assert_eq!(query.fmt_params(), "[number, number], [number, string]");
    assert_eq!(
        query.to_string(),
        "\n\nexport type InsertQueryParams = [[number, number], [number, string]];\n\n\nexport interface IInsertQueryResult {\n    \n};\n\n\nexport interface IInsertQueryQuery {\n    params: InsertQueryParams;\n    result: IInsertQueryResult;\n};\n\n"
    );
}

#[test]
fn insert_rows_and_columns_are_written_in_index_order() {
    let mut query = TsQuery::new("Q".to_string());
    query.insert_value_params(&TsFieldType::Boolean, &(2, 1), &None);
    query.insert_value_params(&TsFieldType::String, &(0, 5), &None);
    query.insert_value_params(&TsFieldType::Number, &(0, 3), &None);
    query.insert_value_params(&TsFieldType::Date, &(2, 0), &None);
    query.insert_value_params(&TsFieldType::Null, &(0, 3), &None);
    assert_eq!(query.fmt_params(), "[null, string], [Date, boolean]");
}

#[test]
fn insert_params_take_the_place_of_plain_params() {
    let mut query = TsQuery::new("Q".to_string());
    assert_eq!(query.insert_param(&TsFieldType::String, &placeholder("?")), Ok(()));
    assert_eq!(query.fmt_params(), "string");
    query.insert_value_params(&TsFieldType::Number, &(0, 0), &None);
    assert_eq!(query.fmt_params(), "[number]");
}

#[test]
fn annotated_insert_param_overrides_inferred_type() {
    let mut query = TsQuery::new("Q".to_string());
    let mut row = BTreeMap::new();
    row.insert(1usize, TsFieldType::String);
    query.annotated_insert_params.insert(0, row);
    query.insert_value_params(&TsFieldType::Number, &(0, 0), &None);
    query.insert_value_params(&TsFieldType::Number, &(0, 1), &None);
    query.insert_value_params(&TsFieldType::Number, &(1, 1), &None);
    assert_eq!(query.fmt_params(), "[number, string], [number]");
}

#[test]
fn function_call_without_alias() {
    let mut query = TsQuery::for_sql(&bound("countQuery", "SELECT COUNT(*) FROM t")).unwrap();
    assert_eq!(
        query.insert_result(None, &[TsFieldType::Number], true, "COUNT(*)"),
        Err(TsGeneratorError::MissingAliasForFunctions("COUNT(*)".to_string()))
    );
    assert_eq!(query.result.len(), 0);
    assert_eq!(query.insert_result(Some("total"), &[TsFieldType::Number], true, "COUNT(*)"), Ok(()));
    assert_eq!(query.fmt_result(), "total: number;");
    assert_eq!(
        query.to_string(),
        "\n\nexport type CountQueryParams = [];\n\n\nexport interface ICountQueryResult {\n    total: number;\n};\n\n\nexport interface ICountQueryQuery {\n    params: CountQueryParams;\n    result: ICountQueryResult;\n};\n\n"
    );
}

#[test]
fn result_outside_a_selection_is_not_kept() {
    let mut query = TsQuery::new("Q".to_string());
    assert_eq!(query.insert_result(Some("id"), &[TsFieldType::Number], false, "id"), Ok(()));
    assert_eq!(query.insert_result(None, &[TsFieldType::Number], false, "COUNT(*)"), Ok(()));
    assert_eq!(query.result.len(), 0);
}

#[test]
fn result_columns_are_sorted_and_unions_joined() {
    let mut query = TsQuery::new("Q".to_string());
    assert_eq!(query.insert_result(Some("quantity"), &[TsFieldType::Number, TsFieldType::Null], true, "q"), Ok(()));
    assert_eq!(query.insert_result(Some("id"), &[TsFieldType::Number], true, "id"), Ok(()));
    assert_eq!(query.insert_result(Some("label"), &[], true, "label"), Ok(()));
    assert_eq!(query.insert_result(Some("id"), &[TsFieldType::String], true, "id"), Ok(()));
    assert_eq!(query.result.len(), 3);
    assert_eq!(query.fmt_result(), "id: string;\n\tlabel: ;\n\tquantity: number | null;");
}

#[test]
fn annotated_result_overrides_inferred_types() {
    let mut annotated = ColumnTypes::new();
    annotated.insert("payload".to_string(), vec![TsFieldType::Object, TsFieldType::Null]);
    let mut query = TsQuery::new("Q".to_string());
    query.set_annotated_results(annotated);
    assert_eq!(query.insert_result(Some("payload"), &[TsFieldType::Any], true, "payload"), Ok(()));
    assert_eq!(query.insert_result(Some("id"), &[TsFieldType::Number], true, "id"), Ok(()));
    assert_eq!(query.fmt_result(), "id: number;\n\tpayload: object | null;");
}

#[test]
fn column_names_are_kept_unless_camel_case_is_chosen() {
    let mut query = TsQuery::new("Q".to_string());
    assert_eq!(query.format_column_name("user_name"), "user_name");
    assert_eq!(query.insert_result(Some("user_name"), &[TsFieldType::String], true, "user_name"), Ok(()));
    assert_eq!(query.fmt_result(), "user_name: string;");

    let mut query = TsQuery::new("Q".to_string());
    query.set_convert_to_camel_case_column_name(true);
    assert_eq!(query.format_column_name("user_name"), "userName");
    assert_eq!(query.format_column_name("id"), "id");
    assert_eq!(query.insert_result(Some("user_name"), &[TsFieldType::String], true, "user_name"), Ok(()));
    assert_eq!(query.fmt_result(), "userName: string;");
}

#[test]
fn annotation_is_looked_up_under_the_name_as_written() {
    let mut annotated = ColumnTypes::new();
    annotated.insert("user_name".to_string(), vec![TsFieldType::Null]);
    annotated.insert("userId".to_string(), vec![TsFieldType::Null]);
    let mut query = TsQuery::new("Q".to_string());
    query.set_convert_to_camel_case_column_name(true);
    query.set_annotated_results(annotated);
    assert_eq!(query.insert_result(Some("user_name"), &[TsFieldType::String], true, "a"), Ok(()));
    assert_eq!(query.insert_result(Some("user_id"), &[TsFieldType::Number], true, "b"), Ok(()));
    assert_eq!(query.fmt_result(), "userId: number;\n\tuserName: null;");
}

#[test]
fn block_holds_each_declaration_once() {
    let mut query = TsQuery::for_sql(&bound("getItems", "SELECT id FROM items WHERE id = ?")).unwrap();
    assert_eq!(query.insert_param(&TsFieldType::Number, &placeholder("?")), Ok(()));
    assert_eq!(query.insert_result(Some("id"), &[TsFieldType::Number], true, "id"), Ok(()));
    let text = query.to_string();
    assert_eq!(text.matches("export type GetItemsParams = ").count(), 1);
    assert_eq!(text.matches("export interface IGetItemsResult {").count(), 1);
    assert_eq!(text.matches("export interface IGetItemsQuery {").count(), 1);
    assert_eq!(text.matches("export ").count(), 3);
    assert!(!text.contains('`'));
}

#[test]
fn file_opens_with_header_and_holds_each_block() {
    let header = "/* TypeScript types of the SQL queries of this project, written by sqlx-ts. */\n";
    assert_eq!(declarations_file(&vec![]), header);
    let mut first = TsQuery::new("First".to_string());
    assert_eq!(first.insert_param(&TsFieldType::Number, &placeholder("?")), Ok(()));
    let second = TsQuery::new("Second".to_string());
    let text = declarations_file(&vec![first.clone(), second.clone()]);
    assert_eq!(text, format!("{}{}{}", header, first.to_string(), second.to_string()));
    assert_eq!(declarations_file(&vec![first.clone()]), declarations_file(&vec![first]));
}

#[test]
fn getters_hand_out_the_fields() {
    let mut annotated = BTreeMap::new();
    annotated.insert(2usize, TsFieldType::Null);
    let mut query = TsQuery::new("Q".to_string());
    query.set_annotated_params(annotated.clone());
    query.set_convert_to_camel_case_column_name(true);
    assert_eq!(query.insert_param(&TsFieldType::Number, &placeholder("?")), Ok(()));
    assert_eq!(query.insert_param(&TsFieldType::Number, &placeholder("?")), Ok(()));
    assert_eq!(query.insert_result(Some("user_id"), &[TsFieldType::Number], true, "user_id"), Ok(()));
    query.insert_value_params(&TsFieldType::String, &(3, 4), &None);
    assert_eq!(query.name(), "Q");
    assert_eq!(query.counted_params(), 2);
    assert_eq!(query.params().get(&1), Some(&TsFieldType::Number));
    assert_eq!(query.params().get(&2), Some(&TsFieldType::Null));
    assert_eq!(query.annotated_params(), &annotated);
    assert_eq!(query.insert_params()[&3][&4], TsFieldType::String);
    assert!(query.annotated_insert_params().is_empty());
    assert_eq!(query.result().get("userId"), Some(&vec![TsFieldType::Number]));
    assert_eq!(query.annotated_results().len(), 0);
    assert!(query.converts_to_camel_case_column_name());
    assert!(!TsQuery::new("Q".to_string()).converts_to_camel_case_column_name());
}

#[test]
fn digits_of_the_first_numbered_placeholder_are_captured() {
    assert_eq!(capture_placeholder_digits("$12"), Some("12".to_string()));
    assert_eq!(capture_placeholder_digits("id = $3 OR id = $4"), Some("3".to_string()));
    assert_eq!(capture_placeholder_digits("$ $007x"), Some("007".to_string()));
    assert_eq!(capture_placeholder_digits("?"), None);
    assert_eq!(capture_placeholder_digits("$"), None);
    assert_eq!(capture_placeholder_digits("12"), None);
    assert_eq!(capture_placeholder_digits(""), None);
}
