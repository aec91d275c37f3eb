use mcp_mysql::error::DbError;
use mcp_mysql::json::JsonValue;
use mcp_mysql::mutate::{prepare_delete, prepare_insert, prepare_update};

fn obj(entries: Vec<(&str, JsonValue)>) -> JsonValue {
    JsonValue::Obj(
        entries
            .into_iter()
            .map(|(k, v)| (String::from(k), v))
            .collect(),
    )
}

#[test]
fn insert_builds_statement_and_binds_in_order() {
    let data = obj(vec![
        ("name", JsonValue::Str(String::from("ada"))),
        ("age", JsonValue::Int(36)),
    ]);
    let plan = prepare_insert(String::from("users"), data).unwrap();
    assert_eq!(plan.sql, "INSERT INTO users (name, age) VALUES (?, ?)");
    assert_eq!(plan.entries.len(), 2);
    assert_eq!(plan.entries[0].0, "name");
    assert_eq!(plan.entries[1].0, "age");
}

#[test]
fn insert_rejects_empty_and_non_object_data() {
    match prepare_insert(String::from("users"), obj(vec![])) {
        Err(DbError::InvalidInput(m)) => assert_eq!(m, "Data object is empty"),
        _ => panic!("expected the empty mapping to be rejected"),
    }
    match prepare_insert(String::from("users"), JsonValue::Int(3)) {
        Err(DbError::InvalidInput(m)) => assert_eq!(m, "Data must be an object"),
        _ => panic!("expected the non-object to be rejected"),
    }
}

#[test]
fn insert_rejects_bad_identifiers() {
    match prepare_insert(String::from("users; --"), obj(vec![("a", JsonValue::Int(1))])) {
        Err(DbError::InvalidIdentifier(n)) => assert_eq!(n, "users; --"),
        _ => panic!("expected the table name to be rejected"),
    }
    match prepare_insert(
        String::from("users"),
        obj(vec![("good", JsonValue::Int(1)), ("bad key", JsonValue::Int(2))]),
    ) {
        Err(DbError::InvalidIdentifier(n)) => assert_eq!(n, "bad key"),
        _ => panic!("expected the column name to be rejected"),
    }
}

#[test]
fn update_builds_set_and_where_clauses() {
    let data = obj(vec![("name", JsonValue::Str(String::from("b"))), ("age", JsonValue::Int(1))]);
    let conditions = obj(vec![("id", JsonValue::Int(7))]);
    let plan = prepare_update(String::from("users"), data, conditions).unwrap();
    assert_eq!(plan.sql, "UPDATE users SET name = ?, age = ? WHERE id = ?");
    assert_eq!(plan.set_entries.len(), 2);
    assert_eq!(plan.where_entries.len(), 1);
}

#[test]
fn update_rejects_empty_mappings() {
    let some = obj(vec![("a", JsonValue::Int(1))]);
    let empty = obj(vec![]);
    match prepare_update(String::from("t"), empty, some) {
        Err(DbError::InvalidInput(m)) => assert_eq!(m, "Data object is empty"),
        _ => panic!("expected empty data to be rejected"),
    }
    let some = obj(vec![("a", JsonValue::Int(1))]);
    let empty = obj(vec![]);
    match prepare_update(String::from("t"), some, empty) {
        Err(DbError::InvalidInput(m)) => assert_eq!(m, "Conditions object is empty"),
        _ => panic!("expected empty conditions to be rejected"),
    }
}

#[test]
fn delete_builds_where_clause_with_and() {
    let conditions = obj(vec![("id", JsonValue::Int(7)), ("state", JsonValue::Str(String::from("old")))]);
    let plan = prepare_delete(String::from("events"), conditions).unwrap();
    assert_eq!(plan.sql, "DELETE FROM events WHERE id = ? AND state = ?");
}

#[test]
fn delete_rejects_bad_condition_key() {
    let conditions = obj(vec![("id`", JsonValue::Int(7))]);
    match prepare_delete(String::from("events"), conditions) {
        Err(DbError::InvalidIdentifier(n)) => assert_eq!(n, "id`"),
        _ => panic!("expected the condition key to be rejected"),
    }
}

#[test]
fn error_codes_are_stable() {
    assert_eq!(DbError::InvalidIdentifier(String::from("x")).code(), -32602);
    assert_eq!(DbError::InvalidInput(String::from("x")).code(), -32602);
    assert_eq!(DbError::ReadOnlyViolation(String::from("x")).code(), -32602);
    assert_eq!(DbError::ConnectionError(String::from("x")).code(), -32003);
    assert_eq!(DbError::SqlError(String::from("x")).code(), -32004);
    assert_eq!(DbError::NoDatabaseSelected.code(), -32005);
    assert_eq!(DbError::NotFound(String::from("x")).code(), -32604);
    assert_eq!(DbError::NotFound(String::from("users")).message(), "Not found: users");
}
