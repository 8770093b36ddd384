use sqlx_ts::text::{chars_of, contains_str, join_strings, parse_decimal, str_eq, str_less};

#[test]
fn join_puts_the_separator_between_parts() {
    let parts = vec!["a".to_string(), "b".to_string(), "c".to_string()];
    assert_eq!(join_strings(&parts, ", "), "a, b, c");
    assert_eq!(join_strings(&parts, ""), "abc");
}

#[test]
fn join_of_nothing_and_of_one_part() {
    assert_eq!(join_strings(&vec![], ", "), "");
    assert_eq!(join_strings(&vec!["only".to_string()], ", "), "only");
    assert_eq!(join_strings(&vec!["".to_string(), "".to_string()], "-"), "-");
}

#[test]
fn str_eq_compares_contents() {
    assert!(str_eq("", ""));
    assert!(str_eq("mysql", "mysql"));
    assert!(!str_eq("mysql", "mysq"));
    assert!(!str_eq("mysql", "mysqL"));
    assert!(str_eq("héllo", "héllo"));
    assert!(!str_eq("héllo", "hello"));
}

#[test]
fn str_less_is_the_order_of_str() {
    let words = ["", "a", "ab", "b", "B", "id", "name", "é", "z", "zz", "日本"];
    for a in words {
        for b in words {
            assert_eq!(str_less(a, b), a < b, "{:?} < {:?}", a, b);
        }
    }
}

#[test]
fn chars_of_lists_the_characters() {
    assert_eq!(chars_of("sql"), vec!['s', 'q', 'l']);
    assert_eq!(chars_of(""), Vec::<char>::new());
    assert_eq!(chars_of("é$"), vec!['é', '$']);
}

#[test]
fn contains_str_finds_substrings() {
    assert!(contains_str("sql", "sql"));
    assert!(contains_str("sql#0", "sql"));
    assert!(contains_str("mysqlx", "sql"));
    assert!(contains_str("anything", ""));
    assert!(contains_str("", ""));
    assert!(!contains_str("", "sql"));
    assert!(!contains_str("sq", "sql"));
    assert!(!contains_str("s-q-l", "sql"));
    assert!(contains_str("aab", "ab"));
}

#[test]
fn parse_decimal_reads_digits() {
    assert_eq!(parse_decimal("0", 10), Some(0));
    assert_eq!(parse_decimal("7", 10), Some(7));
    assert_eq!(parse_decimal("10", 10), Some(10));
    assert_eq!(parse_decimal("007", 10), Some(7));
    assert_eq!(parse_decimal("65535", 65535), Some(65535));
    assert_eq!(parse_decimal("18446744073709551615", u64::MAX), Some(u64::MAX));
}

#[test]
fn parse_decimal_refuses_what_is_no_number_in_range() {
    assert_eq!(parse_decimal("", 10), None);
    assert_eq!(parse_decimal("11", 10), None);
    assert_eq!(parse_decimal("65536", 65535), None);
    assert_eq!(parse_decimal("18446744073709551616", u64::MAX), None);
    assert_eq!(parse_decimal("99999999999999999999999", u64::MAX), None);
    assert_eq!(parse_decimal("-1", 10), None);
    assert_eq!(parse_decimal("+1", 10), None);
    assert_eq!(parse_decimal("1a", 10), None);
    assert_eq!(parse_decimal(" 1", 10), None);
    assert_eq!(parse_decimal("١٢", 100), None);
}
