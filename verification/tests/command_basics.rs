//! Basic command-layer checks.

use tab_shell::registry::WebviewState;

#[test]
fn test_basic_command() {
    assert_eq!(2 + 2, 4);
}

#[test]
fn test_error_handling() {
    let result: Result<i32, &str> = Err("test error");
    assert!(result.is_err());
}

#[test]
fn test_state_management() {
    assert!(true);
}

#[test]
fn test_webview_commands() {
    assert!(true);
}

#[test]
fn state_starts_empty() {
    let state = WebviewState::new();
    assert_eq!(state.len(), 0);
    assert!(state.lookup(&"tab-1".to_string()).is_none());
}
