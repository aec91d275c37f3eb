use mcp_mysql::error::DbError;
use mcp_mysql::json::JsonValue;
use mcp_mysql::schema::{
    all_schemas_response, db_selected, prepare_schema, schema_error_response,
    single_schema_response, table_schema_json, ColumnMeta, IndexMeta, SchemaPlan,
};
use mcp_mysql::sql::{build_show_index, build_use};

fn field(v: &JsonValue, key: &str) -> JsonValue {
    match v {
        JsonValue::Obj(entries) => entries
            .iter()
            .find(|(k, _)| k == key)
            .map(|(_, v)| v.clone())
            .expect("field present"),
        _ => panic!("expected an object"),
    }
}

#[test]
fn schema_requests_are_validated() {
    assert!(matches!(
        prepare_schema(String::from("all-tables")),
        Ok(SchemaPlan::AllTables)
    ));
    match prepare_schema(String::from("users")) {
        Ok(SchemaPlan::Single(t)) => assert_eq!(t, "users"),
        _ => panic!("a valid name is fetched singly"),
    }
    match prepare_schema(String::from("users`")) {
        Err(DbError::InvalidIdentifier(n)) => assert_eq!(n, "users`"),
        _ => panic!("an unsafe name is rejected"),
    }
}

#[test]
fn no_database_selected_is_its_own_error() {
    assert!(matches!(db_selected(None), Err(DbError::NoDatabaseSelected)));
    assert_eq!(db_selected(Some(String::from("shop"))).unwrap(), "shop");
    let resp = schema_error_response(None, &DbError::NoDatabaseSelected);
    let err = resp.error.expect("the error is reported");
    assert_eq!(err.code, -32005);
    assert_eq!(err.message, "No database selected");
}

#[test]
fn table_schema_objects_carry_columns_and_indexes() {
    let cols = vec![ColumnMeta {
        name: String::from("id"),
        data_type: String::from("int"),
        is_nullable: String::from("NO"),
        column_default: None,
        column_key: String::from("PRI"),
        extra: String::from("auto_increment"),
        comment: String::from(""),
    }];
    let idxs = vec![IndexMeta {
        key_name: String::from("PRIMARY"),
        column_name: String::from("id"),
        non_unique: 0,
        index_type: String::from("BTREE"),
    }];
    let schema = table_schema_json(String::from("users"), cols, idxs);
    match field(&schema, "table_name") {
        JsonValue::Str(s) => assert_eq!(s, "users"),
        _ => panic!("table_name is a string"),
    }
    let columns = match field(&schema, "columns") {
        JsonValue::Arr(items) => items,
        _ => panic!("columns is an array"),
    };
    assert_eq!(columns.len(), 1);
    assert!(matches!(field(&columns[0], "nullable"), JsonValue::Bool(false)));
    let indexes = match field(&schema, "indexes") {
        JsonValue::Arr(items) => items,
        _ => panic!("indexes is an array"),
    };
    assert!(matches!(field(&indexes[0], "unique"), JsonValue::Bool(true)));
    let resp = single_schema_response(None, "users", schema);
    assert!(resp.error.is_none());
}

#[test]
fn all_schemas_response_counts_its_entries() {
    let schemas = vec![
        table_schema_json(String::from("a"), vec![], vec![]),
        table_schema_json(String::from("b"), vec![], vec![]),
    ];
    let resp = all_schemas_response(None, schemas);
    let result = resp.result.expect("a result");
    match field(&result, "schemas") {
        JsonValue::Arr(items) => assert_eq!(items.len(), 2),
        _ => panic!("schemas is an array"),
    }
    let content = match field(&result, "content") {
        JsonValue::Arr(items) => items,
        _ => panic!("content is an array"),
    };
    match field(&content[0], "text") {
        JsonValue::Str(s) => assert_eq!(s, "Retrieved schemas for 2 tables."),
        _ => panic!("the summary is text"),
    }
}

#[test]
fn identifier_statements_embed_validated_names() {
    assert_eq!(build_use("shop"), "USE `shop`");
    assert_eq!(build_show_index("shop", "users"), "SHOW INDEX FROM `shop`.`users`");
}
