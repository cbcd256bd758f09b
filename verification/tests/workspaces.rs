use groveshell::icons::{battery_icon, volume_icon, Icon};
use groveshell::workspaces::{
    follow_target, park_window, unpark_window, FollowSuppression, ParkAction, UnparkAction, WORKSPACE_PARK_DY,
};

#[test]
fn parking_moves_a_window_off_screen_and_unparking_brings_it_back() {
    let top = 120;
    let parked = match park_window(false, Some(top)) {
        ParkAction::MoveTo(t) => t,
        other => panic!("unexpected {other:?}"),
    };
    assert_eq!(parked, top + WORKSPACE_PARK_DY);
    assert_eq!(park_window(false, Some(parked)), ParkAction::Skip);
    assert_eq!(unpark_window(false, Some(parked)), UnparkAction::MoveTo(top));
    assert_eq!(unpark_window(false, Some(top)), UnparkAction::Show);
}

#[test]
fn minimized_or_unreadable_windows_are_hidden_or_skipped() {
    assert_eq!(park_window(true, Some(0)), ParkAction::Hide);
    assert_eq!(park_window(false, None), ParkAction::Skip);
    assert_eq!(unpark_window(true, Some(30_000)), UnparkAction::Show);
    assert_eq!(unpark_window(false, None), UnparkAction::Show);
}

#[test]
fn a_window_far_above_the_screen_does_not_round_trip() {
    // A top of -15000 parks to 5000, which still reads as on-screen.
    assert_eq!(park_window(false, Some(-15_000)), ParkAction::MoveTo(5_000));
    assert_eq!(unpark_window(false, Some(5_000)), UnparkAction::Show);
}

#[test]
fn foreground_follow_is_suppressed_for_the_window() {
    let mut s = FollowSuppression::new();
    assert!(!s.is_suppressed(0));
    s.suppress_foreground_follow(1_000, 300);
    assert!(s.is_suppressed(1_000));
    assert!(s.is_suppressed(1_299));
    assert!(!s.is_suppressed(1_300));
}

#[test]
fn follow_target_switches_only_to_another_workspace() {
    assert_eq!(follow_target(false, Some(2), 1), Some(2));
    assert_eq!(follow_target(false, Some(1), 1), None);
    assert_eq!(follow_target(true, Some(2), 1), None);
    assert_eq!(follow_target(false, None, 1), None);
}

#[test]
fn volume_and_battery_icons_follow_the_level() {
    assert_eq!(volume_icon(true, 80), Icon::VolumeX);
    assert_eq!(volume_icon(false, 0), Icon::VolumeX);
    assert_eq!(volume_icon(false, 49), Icon::Volume1);
    assert_eq!(volume_icon(false, 50), Icon::Volume2);
    assert_eq!(battery_icon(10, true), Icon::BatteryCharging);
    assert_eq!(battery_icon(15, false), Icon::BatteryWarning);
    assert_eq!(battery_icon(40, false), Icon::BatteryLow);
    assert_eq!(battery_icon(75, false), Icon::BatteryMedium);
    assert_eq!(battery_icon(76, false), Icon::BatteryFull);
}
