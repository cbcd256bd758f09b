use groveshell::geometry::Rect;
use groveshell::input::{
    drag_mode_for, drag_target, hot_corner_monitor, DragMode, HotCornerState, KeyHookResult, KeyMsg, WinKeyState,
    MIN_WINDOW_SIZE, VK_LWIN, VK_RWIN,
};
use groveshell::monitors::{missing_names, monitor_index_for_center, reference_dpi, MonitorInfo};

fn monitor(name: &str, left: i32, dpi: u32, primary: bool) -> MonitorInfo {
    let rect = Rect { left, top: 0, right: left + 1920, bottom: 1080 };
    MonitorInfo { device_name: name.to_string(), rect, work: rect, is_primary: primary, dpi }
}

#[test]
fn a_windows_key_tap_toggles_the_overview_once() {
    let mut k = WinKeyState::new();
    assert_eq!(k.on_key(VK_LWIN, KeyMsg::Down), KeyHookResult::Swallow);
    assert_eq!(k.on_key(VK_LWIN, KeyMsg::Down), KeyHookResult::Swallow);
    assert_eq!(k.on_key(VK_LWIN, KeyMsg::Up), KeyHookResult::SwallowAndToggleOverview);
    assert!(!k.held);
}

#[test]
fn a_windows_key_hold_used_for_a_drag_does_not_toggle() {
    let mut k = WinKeyState::new();
    k.on_key(VK_RWIN, KeyMsg::Down);
    k.mark_used();
    assert_eq!(k.on_key(VK_RWIN, KeyMsg::Up), KeyHookResult::Swallow);
    // The next fresh press starts an unused hold again.
    k.on_key(VK_RWIN, KeyMsg::Down);
    assert!(!k.used);
    assert_eq!(k.on_key(0x41, KeyMsg::Down), KeyHookResult::Pass);
    assert_eq!(k.on_key(VK_LWIN, KeyMsg::Other), KeyHookResult::Pass);
}

#[test]
fn resize_grows_the_quadrant_under_the_press() {
    let r = Rect { left: 0, top: 0, right: 400, bottom: 300 };
    assert_eq!(drag_mode_for(r, 10, 10, false), DragMode::Move);
    assert_eq!(drag_mode_for(r, 390, 10, true), DragMode::Resize { grow_right: true, grow_bottom: false });
    assert_eq!(drag_mode_for(r, 10, 290, true), DragMode::Resize { grow_right: false, grow_bottom: true });
}

#[test]
fn move_keeps_size_and_resize_respects_the_minimum() {
    let start = Rect { left: 100, top: 100, right: 500, bottom: 400 };
    assert_eq!(drag_target(DragMode::Move, start, 0, 0, 30, -20), (130, 80, 400, 300));
    let grow = DragMode::Resize { grow_right: true, grow_bottom: true };
    assert_eq!(drag_target(grow, start, 0, 0, 50, 60), (100, 100, 450, 360));
    assert_eq!(drag_target(grow, start, 0, 0, -1000, -1000), (100, 100, MIN_WINDOW_SIZE, MIN_WINDOW_SIZE));
    let shrink_left = DragMode::Resize { grow_right: false, grow_bottom: false };
    assert_eq!(drag_target(shrink_left, start, 0, 0, 1000, 1000), (380, 280, 120, 120));
}

#[test]
fn hot_corner_fires_only_on_arrival() {
    let mut h = HotCornerState::new();
    assert!(h.check_hot_corners(true));
    assert!(!h.check_hot_corners(true));
    assert!(!h.check_hot_corners(false));
    assert!(h.check_hot_corners(true));
}

#[test]
fn hot_corner_monitor_finds_the_top_left_zone() {
    let ms = vec![monitor("A", 0, 96, true), monitor("B", 1920, 144, false)];
    assert_eq!(hot_corner_monitor(&ms, 1, 2), Some(0));
    assert_eq!(hot_corner_monitor(&ms, 1921, 0), Some(1));
    assert_eq!(hot_corner_monitor(&ms, 3, 0), None);
}

#[test]
fn reference_dpi_prefers_the_primary_monitor() {
    let ms = vec![monitor("A", 0, 120, false), monitor("B", 1920, 144, true)];
    assert_eq!(reference_dpi(&ms), 144);
    let no_primary = vec![monitor("A", 0, 120, false)];
    assert_eq!(reference_dpi(&no_primary), 120);
    assert_eq!(reference_dpi(&[]), 96);
}

#[test]
fn monitor_index_for_center_picks_the_holding_monitor() {
    let ms = vec![monitor("A", 0, 96, true), monitor("B", 1920, 96, false)];
    assert_eq!(monitor_index_for_center(&ms, 2000, 500), Some(1));
    assert_eq!(monitor_index_for_center(&ms, 5000, 500), None);
}

#[test]
fn missing_names_finds_removed_and_added_monitors() {
    let known = vec!["A".to_string(), "B".to_string(), "C".to_string()];
    let live = vec!["C".to_string(), "D".to_string()];
    assert_eq!(missing_names(&known, &live), vec!["A".to_string(), "B".to_string()]);
    assert_eq!(missing_names(&live, &known), vec!["D".to_string()]);
}

#[test]
fn monitors_are_ordered_left_to_right_stably() {
    let ms = vec![monitor("C", 1920, 96, false), monitor("A", -1920, 96, false), monitor("B", 0, 96, true), monitor("D", 0, 120, false)];
    let sorted = groveshell::monitors::monitors_sorted_by_x(&ms);
    let names: Vec<&str> = sorted.iter().map(|m| m.device_name.as_str()).collect();
    assert_eq!(names, vec!["A", "B", "D", "C"]);
    assert_eq!(sorted[2].dpi, 120);
}
