use mcp_mysql::error::DbError;
use mcp_mysql::gate::query_permitted_readonly;
use mcp_mysql::query::prepare_query;

#[test]
fn gate_accepts_read_only_statements() {
    assert!(query_permitted_readonly("SELECT 1"));
    assert!(query_permitted_readonly("  select * from users"));
    assert!(query_permitted_readonly("\t\nShOw TABLES"));
    assert!(query_permitted_readonly("describe users"));
    assert!(query_permitted_readonly("EXPLAIN SELECT 1"));
}

#[test]
fn gate_rejects_everything_else() {
    assert!(!query_permitted_readonly("UPDATE users SET a = 1"));
    assert!(!query_permitted_readonly("insert into users values (1)"));
    assert!(!query_permitted_readonly("DROP TABLE users"));
    assert!(!query_permitted_readonly("  DELETE FROM users"));
    assert!(!query_permitted_readonly(""));
    assert!(!query_permitted_readonly("   \t"));
    assert!(!query_permitted_readonly("SELEC T"));
}

#[test]
fn read_only_mode_rejects_mutating_query() {
    let r = prepare_query(String::from("DELETE FROM t"), None, false, 100);
    match r {
        Err(DbError::ReadOnlyViolation(_)) => {}
        _ => panic!("expected a read-only violation"),
    }
}

#[test]
fn read_only_mode_wraps_query_in_transaction() {
    let plan = prepare_query(String::from("SELECT 1"), None, false, 100).unwrap();
    assert!(plan.read_only);
    let open_plan = prepare_query(String::from("DELETE FROM t"), None, true, 100).unwrap();
    assert!(!open_plan.read_only);
}

#[test]
fn query_database_override_is_validated() {
    let r = prepare_query(String::from("SELECT 1"), Some(String::from("bad-db")), false, 100);
    match r {
        Err(DbError::InvalidIdentifier(n)) => assert_eq!(n, "bad-db"),
        _ => panic!("expected an invalid identifier"),
    }
    let plan = prepare_query(String::from("SELECT 1"), Some(String::from("mydb")), false, 100)
        .unwrap();
    assert_eq!(plan.use_stmt.unwrap(), "USE `mydb`");
}
