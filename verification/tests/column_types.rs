use sqlx_ts::ts_generator::types::column_types::ColumnTypes;
use sqlx_ts::ts_generator::types::ts_field_type::TsFieldType;

fn labels(columns: &ColumnTypes) -> Vec<String> {
    (0..columns.len()).map(|i| columns.label_at(i).clone()).collect()
}

#[test]
fn new_column_types_are_empty() {
    let columns = ColumnTypes::new();
    assert_eq!(columns.len(), 0);
    assert_eq!(columns.get("id"), None);
}

#[test]
fn entries_are_kept_in_the_order_of_their_labels() {
    let mut columns = ColumnTypes::new();
    columns.insert("name".to_string(), vec![TsFieldType::String]);
    columns.insert("id".to_string(), vec![TsFieldType::Number]);
    columns.insert("zip".to_string(), vec![TsFieldType::String, TsFieldType::Null]);
    columns.insert("Age".to_string(), vec![TsFieldType::Number]);
    assert_eq!(labels(&columns), vec!["Age", "id", "name", "zip"]);
    assert_eq!(columns.types_at(0), &vec![TsFieldType::Number]);
    assert_eq!(columns.types_at(3), &vec![TsFieldType::String, TsFieldType::Null]);
}

#[test]
fn insert_under_a_known_label_replaces() {
    let mut columns = ColumnTypes::new();
    columns.insert("id".to_string(), vec![TsFieldType::Number]);
    columns.insert("name".to_string(), vec![TsFieldType::String]);
    columns.insert("id".to_string(), vec![TsFieldType::String]);
    assert_eq!(columns.len(), 2);
    assert_eq!(columns.get("id"), Some(&vec![TsFieldType::String]));
    assert_eq!(columns.get("name"), Some(&vec![TsFieldType::String]));
    assert_eq!(columns.get("missing"), None);
}
