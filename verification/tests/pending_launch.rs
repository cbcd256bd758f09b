use groveshell::pending_launch::{take_match_at, PendingLaunch, PendingLaunches, PENDING_LAUNCH_TIMEOUT_MS};

fn entry(pid: u32, monitor: &str, index: usize, expires_at_ms: u64) -> PendingLaunch {
    PendingLaunch { process_id: pid, monitor: monitor.to_string(), workspace_index: index, expires_at_ms }
}

#[test]
fn take_match_at_finds_and_removes_the_matching_entry() {
    let now = 50_000;
    let mut pending = vec![entry(111, "MonitorA", 2, now + 10_000)];
    let result = take_match_at(&mut pending, 111, now);
    assert_eq!(result, Some(("MonitorA".to_string(), 2)));
    assert!(pending.is_empty());
}

#[test]
fn take_match_at_returns_none_for_no_matching_pid() {
    let now = 50_000;
    let mut pending = vec![entry(111, "MonitorA", 2, now + 10_000)];
    assert_eq!(take_match_at(&mut pending, 999, now), None);
    assert_eq!(pending.len(), 1);
}

#[test]
fn take_match_at_ignores_an_expired_entry() {
    let now = 50_000;
    let past = now - 1_000;
    let mut pending = vec![entry(111, "MonitorA", 2, past)];
    assert_eq!(take_match_at(&mut pending, 111, now), None);
    assert!(pending.is_empty(), "expired entries are dropped even if not matched");
}

#[test]
fn take_match_at_matches_the_first_of_several_by_pid() {
    let now = 50_000;
    let soon = now + 10_000;
    let mut pending = vec![entry(1, "A", 0, soon), entry(2, "B", 1, soon)];
    assert_eq!(take_match_at(&mut pending, 2, now), Some(("B".to_string(), 1)));
    assert_eq!(pending.len(), 1);
    assert_eq!(pending[0].process_id, 1);
}

#[test]
fn an_entry_expiring_exactly_now_is_dropped() {
    let mut pending = vec![entry(7, "A", 0, 1_000), entry(8, "B", 3, 1_001)];
    assert_eq!(take_match_at(&mut pending, 7, 1_000), None);
    assert_eq!(pending.len(), 1);
    assert_eq!(pending[0].process_id, 8);
}

#[test]
fn the_first_of_two_entries_with_one_pid_wins() {
    let mut pending = vec![entry(5, "A", 0, 9_000), entry(5, "B", 1, 9_000)];
    assert_eq!(take_match_at(&mut pending, 5, 0), Some(("A".to_string(), 0)));
    assert_eq!(take_match_at(&mut pending, 5, 0), Some(("B".to_string(), 1)));
    assert!(pending.is_empty());
}

#[test]
fn registered_launches_are_matched_until_the_timeout() {
    let mut launches = PendingLaunches::new();
    launches.register(entry(42, "Mon", 3, 1_000 + PENDING_LAUNCH_TIMEOUT_MS));
    launches.register(entry(43, "Mon", 4, 1_000 + PENDING_LAUNCH_TIMEOUT_MS));
    assert_eq!(launches.len(), 2);
    assert_eq!(launches.take_match(42, 2_000), Some(("Mon".to_string(), 3)));
    assert_eq!(launches.len(), 1);
    assert_eq!(launches.take_match(43, 1_000 + PENDING_LAUNCH_TIMEOUT_MS), None);
    assert_eq!(launches.len(), 0);
}
