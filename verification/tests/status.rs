use groveshell::status::{
    decimal_string, health_summary, is_ui_running, process_status_line, toggle_groveshell, ChildState, ManagedPids,
    ToggleAction,
};

#[test]
fn ui_counts_as_running_only_while_alive() {
    assert!(is_ui_running(ChildState::Running));
    assert!(!is_ui_running(ChildState::Exited));
    assert!(!is_ui_running(ChildState::NotSpawned));
    assert!(!is_ui_running(ChildState::Unknown));
}

#[test]
fn toggle_stops_a_running_shell_and_starts_a_stopped_one() {
    assert_eq!(toggle_groveshell(true), ToggleAction::StopAll);
    assert_eq!(toggle_groveshell(false), ToggleAction::StartAll);
}

#[test]
fn pid_of_looks_up_each_managed_process() {
    let p = ManagedPids { watchdog: Some(1), host: Some(2), ui: None };
    assert_eq!(p.pid_of("watchdog"), Some(1));
    assert_eq!(p.pid_of("host"), Some(2));
    assert_eq!(p.pid_of("ui"), None);
    assert_eq!(p.pid_of("explorer"), None);
}

#[test]
fn health_summary_reports_the_first_problem() {
    let all = ManagedPids { watchdog: Some(1), host: Some(2), ui: Some(3) };
    assert_eq!(health_summary(&all, true), Ok(()));
    assert_eq!(health_summary(&all, false), Err("host did not respond to ping".to_string()));
    let no_ui = ManagedPids { ui: None, ..all };
    assert_eq!(health_summary(&no_ui, true), Err("ui is not running".to_string()));
    let no_host = ManagedPids { host: None, ui: None, ..all };
    assert_eq!(health_summary(&no_host, true), Err("host is not running".to_string()));
    let none = ManagedPids { watchdog: None, host: None, ui: None };
    assert_eq!(health_summary(&none, false), Err("watchdog is not running".to_string()));
}

#[test]
fn status_lines_name_the_pid_and_usage() {
    assert_eq!(process_status_line("host", None, None), "host: not running");
    assert_eq!(process_status_line("ui", Some(4321), None), "ui: running (pid 4321)");
    assert_eq!(
        process_status_line("ui", Some(7), Some("1.5% CPU, 20 MB")),
        "ui: running (pid 7, 1.5% CPU, 20 MB)"
    );
}

#[test]
fn decimal_string_writes_numbers_without_leading_zeros() {
    assert_eq!(decimal_string(0), "0");
    assert_eq!(decimal_string(10), "10");
    assert_eq!(decimal_string(4_294_967_295), "4294967295");
}
