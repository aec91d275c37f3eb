use mcp_mysql::coerce::truncate_rows;
use mcp_mysql::json::JsonValue;
use mcp_mysql::query::{prepare_query, QueryAction, QueryExec, QueryStep};

fn row(n: i64) -> JsonValue {
    JsonValue::Obj(vec![(String::from("n"), JsonValue::Int(n))])
}

#[test]
fn rollback_happens_once_on_success() {
    let plan = prepare_query(String::from("SELECT 1"), None, false, 10).unwrap();
    let mut m = QueryExec::start(plan);
    assert!(matches!(m.current_action(), QueryAction::Acquire));
    m.on_acquire(true, String::new());
    match m.current_action() {
        QueryAction::Exec(s) => assert_eq!(s, "START TRANSACTION READ ONLY"),
        _ => panic!("expected the transaction to open"),
    }
    m.on_begin(true, String::new());
    match m.current_action() {
        QueryAction::Fetch(s) => assert_eq!(s, "SELECT 1"),
        _ => panic!("expected the statement to run"),
    }
    m.on_rows(Ok(vec![row(1)]));
    match m.current_action() {
        QueryAction::Exec(s) => assert_eq!(s, "ROLLBACK"),
        _ => panic!("expected the rollback"),
    }
    m.on_rollback(true);
    assert!(matches!(m.current_action(), QueryAction::Finished));
    assert_eq!(m.rollbacks, 1);
}

#[test]
fn rollback_happens_once_on_failure_too() {
    let plan = prepare_query(String::from("SELECT 1"), None, false, 10).unwrap();
    let mut m = QueryExec::start(plan);
    m.on_acquire(true, String::new());
    m.on_begin(true, String::new());
    m.on_rows(Err(String::from("table gone")));
    match m.current_action() {
        QueryAction::Exec(s) => assert_eq!(s, "ROLLBACK"),
        _ => panic!("expected the rollback even after a failed statement"),
    }
    m.on_rollback(false);
    assert_eq!(m.rollbacks, 1);
    let resp = m.response(None);
    let err = resp.error.expect("the statement error is reported");
    assert_eq!(err.code, -32004);
    assert_eq!(err.message, "Query execution failed: table gone");
}

#[test]
fn no_rollback_in_dangerous_mode() {
    let plan = prepare_query(String::from("DELETE FROM t"), None, true, 10).unwrap();
    let mut m = QueryExec::start(plan);
    m.on_acquire(true, String::new());
    assert!(matches!(m.current_action(), QueryAction::Fetch(_)));
    m.on_rows(Ok(vec![]));
    assert!(matches!(m.current_action(), QueryAction::Finished));
    assert_eq!(m.rollbacks, 0);
}

#[test]
fn database_override_switches_context_first() {
    let plan = prepare_query(
        String::from("SELECT 1"),
        Some(String::from("other")),
        false,
        10,
    )
    .unwrap();
    let mut m = QueryExec::start(plan);
    m.on_acquire(true, String::new());
    match m.current_action() {
        QueryAction::Exec(s) => assert_eq!(s, "USE `other`"),
        _ => panic!("expected the context switch"),
    }
    m.on_context(false, String::from("denied"));
    let resp = m.response(None);
    let err = resp.error.expect("a context failure is reported");
    assert_eq!(err.code, -32006);
    assert_eq!(err.message, "Failed to set database context: denied");
    assert!(matches!(QueryExec::start(
        prepare_query(String::from("SELECT 1"), None, false, 10).unwrap()
    ).step, QueryStep::AcquireConn));
}

#[test]
fn results_are_truncated_at_max_rows() {
    let rows: Vec<JsonValue> = (0..5).map(row).collect();
    let (kept, truncated) = truncate_rows(rows, 3);
    assert_eq!(kept.len(), 3);
    assert!(truncated);
    let rows: Vec<JsonValue> = (0..5).map(row).collect();
    let (kept, truncated) = truncate_rows(rows, 5);
    assert_eq!(kept.len(), 5);
    assert!(!truncated);
    let rows: Vec<JsonValue> = (0..2).map(row).collect();
    let (kept, truncated) = truncate_rows(rows, 10);
    assert_eq!(kept.len(), 2);
    assert!(!truncated);
}

#[test]
fn machine_truncates_and_reports() {
    let plan = prepare_query(String::from("SELECT 1"), None, false, 2).unwrap();
    let mut m = QueryExec::start(plan);
    m.on_acquire(true, String::new());
    m.on_begin(true, String::new());
    m.on_rows(Ok((0..4).map(row).collect()));
    m.on_rollback(true);
    match m.outcome {
        Some(Ok((ref kept, truncated))) => {
            assert_eq!(kept.len(), 2);
            assert!(truncated);
        }
        _ => panic!("expected truncated rows"),
    }
}

#[test]
fn acquire_failure_reports_without_rollback() {
    let plan = prepare_query(String::from("SELECT 1"), None, false, 10).unwrap();
    let mut m = QueryExec::start(plan);
    m.on_acquire(false, String::from("pool closed"));
    assert_eq!(m.rollbacks, 0);
    let resp = m.response(Some(JsonValue::Int(7)));
    let err = resp.error.expect("the acquire failure is reported");
    assert_eq!(err.code, -32005);
    assert_eq!(err.message, "Failed to acquire database connection: pool closed");
}
