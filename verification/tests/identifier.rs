use mcp_mysql::ident::is_valid_identifier;

#[test]
fn test_is_valid_identifier() {
    assert!(is_valid_identifier("users"));
    assert!(is_valid_identifier("my_table_123"));
    assert!(is_valid_identifier("_hidden"));
    assert!(is_valid_identifier("CamelCase"));

    assert!(!is_valid_identifier(""));
    assert!(!is_valid_identifier("users; DROP TABLE users"));
    assert!(!is_valid_identifier("users--"));
    assert!(!is_valid_identifier("table with spaces"));
    assert!(!is_valid_identifier("table-with-dashes"));
    assert!(is_valid_identifier("123"));
}

#[test]
fn identifier_length_boundaries() {
    let longest: String = ['a'; 64].iter().collect();
    assert_eq!(longest.len(), 64);
    assert!(is_valid_identifier(&longest));
    let too_long: String = ['a'; 65].iter().collect();
    assert!(!is_valid_identifier(&too_long));
}

#[test]
fn identifier_rejects_backtick_and_null() {
    assert!(!is_valid_identifier("user`s"));
    assert!(!is_valid_identifier("`"));
    assert!(!is_valid_identifier("user\u{0}name"));
    assert!(!is_valid_identifier("\u{0}"));
}

#[test]
fn identifier_rejects_punctuation_and_unicode() {
    assert!(!is_valid_identifier("a.b"));
    assert!(!is_valid_identifier("a'b"));
    assert!(!is_valid_identifier("a\"b"));
    assert!(!is_valid_identifier("caf\u{e9}"));
}
