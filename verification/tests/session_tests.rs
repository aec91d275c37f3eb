use mcp_mysql::session::{
    connect_retry_decision, is_blank_line, is_lifecycle_notification, read_error_action,
    ReadErrorAction, RetryDecision,
};

#[test]
fn connection_is_retried_five_times_a_second_apart() {
    for failures in 0..5 {
        match connect_retry_decision(failures) {
            RetryDecision::Retry { delay_ms } => assert_eq!(delay_ms, 1000),
            RetryDecision::GiveUp => panic!("attempt {} must be retried", failures),
        }
    }
    assert!(matches!(connect_retry_decision(5), RetryDecision::GiveUp));
    assert!(matches!(connect_retry_decision(6), RetryDecision::GiveUp));
}

#[test]
fn read_errors_pause_unless_the_stream_ended() {
    assert!(matches!(read_error_action(true), ReadErrorAction::Shutdown));
    match read_error_action(false) {
        ReadErrorAction::PauseAndContinue { delay_ms } => assert_eq!(delay_ms, 100),
        _ => panic!("a transient read error continues"),
    }
}

#[test]
fn blank_lines_are_skipped() {
    assert!(is_blank_line(""));
    assert!(is_blank_line("   "));
    assert!(is_blank_line("\t\r\n"));
    assert!(!is_blank_line(" {\"jsonrpc\":\"2.0\"}"));
    assert!(!is_blank_line("x"));
}

#[test]
fn lifecycle_notifications_are_recognized() {
    assert!(is_lifecycle_notification("notifications/initialized"));
    assert!(is_lifecycle_notification("initialized"));
    assert!(!is_lifecycle_notification("initialize"));
    assert!(!is_lifecycle_notification("tools/list"));
}
