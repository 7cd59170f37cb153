use process_supervisor::supervisor::results::{
    KillResult, LaunchResult, OldKillResult, TerminateResult,
};

#[test]
fn launch_result_starts_blank() {
    let result = LaunchResult::new();
    assert!(!result.is_success());
    assert_eq!(result.pid(), None);
    assert_eq!(result.error_message(), None);
}

#[test]
fn launch_result_records_success() {
    let mut result = LaunchResult::new();
    result.set_success(321);
    assert!(result.is_success());
    assert_eq!(result.pid(), Some(321));
    assert_eq!(result.error_message(), None);
}

#[test]
fn launch_result_records_error() {
    let mut result = LaunchResult::new();
    result.set_success(321);
    result.set_error("no such file".to_string());
    assert!(!result.is_success());
    // The pid of an earlier success stays.
    assert_eq!(result.pid(), Some(321));
    assert_eq!(result.error_message(), Some(&"no such file".to_string()));
}

#[test]
fn old_kill_result_records_both_outcomes() {
    let mut result = OldKillResult::new();
    assert!(!result.is_success());
    assert_eq!(result.exit_code(), None);
    assert_eq!(result.error_message(), None);
    result.set_success(Some(9999999));
    assert!(result.is_success());
    assert_eq!(result.exit_code(), Some(9999999));
    result.set_error("gone".to_string());
    assert!(!result.is_success());
    assert_eq!(result.exit_code(), Some(9999999));
    assert_eq!(result.error_message(), Some(&"gone".to_string()));
}

#[test]
fn kill_result_records_both_outcomes() {
    let mut result = KillResult::new();
    assert!(!result.is_success());
    assert_eq!(result.exit_code(), None);
    assert_eq!(result.error_message(), None);
    result.set_success(Some(-3));
    assert!(result.is_success());
    assert_eq!(result.exit_code(), Some(-3));
    result.set_success(None);
    assert_eq!(result.exit_code(), None);
    result.set_error("denied".to_string());
    assert!(!result.is_success());
    assert_eq!(result.error_message(), Some(&"denied".to_string()));
}

#[test]
fn kill_result_clone_is_equal_field_by_field() {
    let mut result = KillResult::new();
    result.set_success(Some(137));
    result.set_error("late".to_string());
    let copy = result.clone();
    assert_eq!(copy.is_success(), result.is_success());
    assert_eq!(copy.exit_code(), Some(137));
    assert_eq!(copy.error_message(), Some(&"late".to_string()));
    let blank = KillResult::new().clone();
    assert!(!blank.is_success());
    assert_eq!(blank.exit_code(), None);
    assert_eq!(blank.error_message(), None);
}

#[test]
fn terminate_result_records_both_outcomes() {
    let mut result = TerminateResult::new();
    assert!(!result.is_success());
    assert_eq!(result.error_message(), None);
    result.set_success();
    assert!(result.is_success());
    assert_eq!(result.error_message(), None);
    result.set_error("EPERM".to_string());
    assert!(!result.is_success());
    assert_eq!(result.error_message(), Some(&"EPERM".to_string()));
}
