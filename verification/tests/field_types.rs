use sqlx_ts::ts_generator::types::ts_field_type::{clone_types, TsFieldType};

#[test]
fn plain_types_are_written_as_typescript_words() {
    assert_eq!(TsFieldType::Boolean.to_string(), "boolean");
    assert_eq!(TsFieldType::Number.to_string(), "number");
    assert_eq!(TsFieldType::String.to_string(), "string");
    assert_eq!(TsFieldType::Object.to_string(), "object");
    assert_eq!(TsFieldType::Date.to_string(), "Date");
    assert_eq!(TsFieldType::Any.to_string(), "any");
    assert_eq!(TsFieldType::Null.to_string(), "null");
    assert_eq!(TsFieldType::Never.to_string(), "never");
}

#[test]
fn array_is_written_with_its_element_type() {
    let array = TsFieldType::Array(Box::new(TsFieldType::Number));
    assert_eq!(array.to_string(), "Array<number>");
    let nested = TsFieldType::Array(Box::new(array));
    assert_eq!(nested.to_string(), "Array<Array<number>>");
}

#[test]
fn array2d_is_written_as_bracketed_rows() {
    let rows = TsFieldType::Array2D(vec![
        vec![TsFieldType::Number, TsFieldType::String],
        vec![TsFieldType::Boolean],
    ]);
    assert_eq!(rows.to_string(), "[number, string], [boolean]");
}

#[test]
fn array2d_without_rows_is_empty_text() {
    assert_eq!(TsFieldType::Array2D(vec![]).to_string(), "");
    assert_eq!(TsFieldType::Array2D(vec![vec![]]).to_string(), "[]");
    assert_eq!(TsFieldType::Array2D(vec![vec![], vec![TsFieldType::Any]]).to_string(), "[], [any]");
}

#[test]
fn postgres_types_map_to_field_types() {
    let from = |name: &str| TsFieldType::get_ts_field_type_from_postgres_field_type(name.to_string());
    for name in ["smallint", "integer", "real", "double precision", "numeric"] {
        assert_eq!(from(name), TsFieldType::Number, "{}", name);
    }
    for name in ["character", "character varying", "bytea", "uuid", "text"] {
        assert_eq!(from(name), TsFieldType::String, "{}", name);
    }
    assert_eq!(from("boolean"), TsFieldType::Boolean);
    assert_eq!(from("json"), TsFieldType::Object);
    assert_eq!(from("jsonb"), TsFieldType::Object);
    assert_eq!(from("ARRAY"), TsFieldType::Any);
    assert_eq!(from("array"), TsFieldType::Any);
    assert_eq!(from("date"), TsFieldType::Date);
}

#[test]
fn unknown_postgres_type_is_any() {
    let from = |name: &str| TsFieldType::get_ts_field_type_from_postgres_field_type(name.to_string());
    assert_eq!(from("timestamp"), TsFieldType::Any);
    assert_eq!(from(""), TsFieldType::Any);
    assert_eq!(from("Integer"), TsFieldType::Any);
    assert_eq!(from("integer "), TsFieldType::Any);
    assert_eq!(from("tinyint"), TsFieldType::Any);
}

#[test]
fn mysql_types_map_to_field_types() {
    let from = |name: &str| TsFieldType::get_ts_field_type_from_mysql_field_type(name.to_string());
    for name in ["bigint", "decimal", "double", "float", "int", "mediumint", "smallint", "year"] {
        assert_eq!(from(name), TsFieldType::Number, "{}", name);
    }
    for name in ["binary", "bit", "blob", "char", "text", "varbinary", "varchar"] {
        assert_eq!(from(name), TsFieldType::String, "{}", name);
    }
    assert_eq!(from("tinyint"), TsFieldType::Boolean);
    for name in ["date", "datetime", "timestamp"] {
        assert_eq!(from(name), TsFieldType::Date, "{}", name);
    }
}

#[test]
fn unknown_mysql_type_is_any() {
    let from = |name: &str| TsFieldType::get_ts_field_type_from_mysql_field_type(name.to_string());
    assert_eq!(from("json"), TsFieldType::Any);
    assert_eq!(from("integer"), TsFieldType::Any);
    assert_eq!(from("tinyint(1)"), TsFieldType::Any);
    assert_eq!(from(""), TsFieldType::Any);
}

#[test]
fn annotation_words_map_to_field_types() {
    assert_eq!(TsFieldType::get_ts_field_from_annotation("string"), TsFieldType::String);
    assert_eq!(TsFieldType::get_ts_field_from_annotation("number"), TsFieldType::Number);
    assert_eq!(TsFieldType::get_ts_field_from_annotation("boolean"), TsFieldType::Boolean);
    assert_eq!(TsFieldType::get_ts_field_from_annotation("object"), TsFieldType::Object);
    assert_eq!(TsFieldType::get_ts_field_from_annotation("null"), TsFieldType::Null);
}

#[test]
fn unknown_annotation_word_is_any() {
    assert_eq!(TsFieldType::get_ts_field_from_annotation("Date"), TsFieldType::Any);
    assert_eq!(TsFieldType::get_ts_field_from_annotation("String"), TsFieldType::Any);
    assert_eq!(TsFieldType::get_ts_field_from_annotation(""), TsFieldType::Any);
    assert_eq!(TsFieldType::get_ts_field_from_annotation("any"), TsFieldType::Any);
}

#[test]
fn clone_keeps_the_type() {
    let rows = TsFieldType::Array2D(vec![
        vec![TsFieldType::Number, TsFieldType::Array(Box::new(TsFieldType::Date))],
        vec![],
    ]);
    assert_eq!(rows.clone(), rows);
    let types = vec![TsFieldType::Null, rows];
    assert_eq!(clone_types(&types), types);
}

#[test]
fn postgres_array_comes_with_a_note() {
    let note = "Currently we cannot figure out the type information for an array, the feature will be added in the future";
    assert_eq!(TsFieldType::get_postgres_field_type_note("ARRAY"), Some(note.to_string()));
    assert_eq!(TsFieldType::get_postgres_field_type_note("array"), Some(note.to_string()));
    for name in ["Array", "integer", "text", "", "array ", "tinyint"] {
        assert_eq!(TsFieldType::get_postgres_field_type_note(name), None, "{:?}", name);
    }
}
