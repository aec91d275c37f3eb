use mcp_mysql::coerce::{cell_to_json, classify_type, DecodedCell, RawCell, TypeCategory};
use mcp_mysql::json::JsonValue;
use mcp_mysql::num::u64_to_string;
use std::str::FromStr;

#[test]
fn type_names_fall_into_their_categories() {
    assert!(matches!(classify_type("BOOLEAN"), TypeCategory::BoolLike));
    assert!(matches!(classify_type("TINYINT"), TypeCategory::BoolLike));
    assert!(matches!(classify_type("SMALLINT"), TypeCategory::Integer));
    assert!(matches!(classify_type("INT"), TypeCategory::Integer));
    assert!(matches!(classify_type("INTEGER"), TypeCategory::Integer));
    assert!(matches!(classify_type("BIGINT"), TypeCategory::Integer));
    assert!(matches!(classify_type("FLOAT"), TypeCategory::Float));
    assert!(matches!(classify_type("DOUBLE"), TypeCategory::Float));
    assert!(matches!(classify_type("REAL"), TypeCategory::Float));
    assert!(matches!(classify_type("DECIMAL"), TypeCategory::Decimal));
    assert!(matches!(classify_type("NUMERIC"), TypeCategory::Decimal));
    assert!(matches!(classify_type("DATE"), TypeCategory::DateTime));
    assert!(matches!(classify_type("TIME"), TypeCategory::DateTime));
    assert!(matches!(classify_type("DATETIME"), TypeCategory::DateTime));
    assert!(matches!(classify_type("TIMESTAMP"), TypeCategory::DateTime));
    assert!(matches!(classify_type("VARCHAR"), TypeCategory::Textual));
    assert!(matches!(classify_type("JSON"), TypeCategory::Textual));
    assert!(matches!(classify_type("int"), TypeCategory::Textual));
}

#[test]
fn decimal_cells_keep_their_exact_text() {
    let v = cell_to_json(
        TypeCategory::Decimal,
        DecodedCell::NumberText(Some(String::from("12345.678900"))),
    );
    match v {
        JsonValue::Str(s) => assert_eq!(s, "12345.678900"),
        _ => panic!("a decimal is re-encoded as a string"),
    }
}

#[test]
fn decimal_round_trip_preserves_the_numeric_value() {
    let stored = sqlx::types::BigDecimal::from_str("123.4560").unwrap();
    let rendered = stored.to_string();
    let v = cell_to_json(
        TypeCategory::Decimal,
        DecodedCell::NumberText(Some(rendered.clone())),
    );
    match v {
        JsonValue::Str(s) => {
            assert_eq!(sqlx::types::BigDecimal::from_str(&s).unwrap(), stored);
        }
        _ => panic!("a decimal is re-encoded as a string"),
    }
}

#[test]
fn boolean_cells_fall_back_to_integers_then_null() {
    assert!(matches!(
        cell_to_json(TypeCategory::BoolLike, DecodedCell::Bool(Some(true))),
        JsonValue::Bool(true)
    ));
    assert!(matches!(
        cell_to_json(TypeCategory::BoolLike, DecodedCell::Int(Some(5))),
        JsonValue::Int(5)
    ));
    assert!(matches!(
        cell_to_json(TypeCategory::BoolLike, DecodedCell::Bool(None)),
        JsonValue::Null
    ));
    assert!(matches!(
        cell_to_json(TypeCategory::Integer, DecodedCell::Undecodable),
        JsonValue::Null
    ));
    assert!(matches!(
        cell_to_json(TypeCategory::Textual, DecodedCell::Text(None)),
        JsonValue::Null
    ));
}

#[test]
fn rows_become_objects_in_column_order() {
    let cells = vec![
        RawCell {
            name: String::from("id"),
            category: TypeCategory::Integer,
            cell: DecodedCell::Int(Some(7)),
        },
        RawCell {
            name: String::from("label"),
            category: TypeCategory::Textual,
            cell: DecodedCell::Text(Some(String::from("seven"))),
        },
    ];
    match mcp_mysql::coerce::row_to_json(cells) {
        JsonValue::Obj(entries) => {
            assert_eq!(entries.len(), 2);
            assert_eq!(entries[0].0, "id");
            assert!(matches!(entries[0].1, JsonValue::Int(7)));
            assert_eq!(entries[1].0, "label");
            match &entries[1].1 {
                JsonValue::Str(s) => assert_eq!(s, "seven"),
                _ => panic!("text decodes to a string"),
            }
        }
        _ => panic!("a row is an object"),
    }
}

#[test]
fn decimal_numbers_render_exactly() {
    assert_eq!(u64_to_string(0), "0");
    assert_eq!(u64_to_string(7), "7");
    assert_eq!(u64_to_string(12345), "12345");
    assert_eq!(u64_to_string(18446744073709551615), "18446744073709551615");
}
