use groveshell::geometry::{scaled, shift_rect, Rect};
use groveshell::tray::{find_overflow_window, overflow_available, overflow_position};

fn rect(l: i32, t: i32, r: i32, b: i32) -> Rect {
    Rect { left: l, top: t, right: r, bottom: b }
}

#[test]
fn shift_rect_moves_every_corner_by_the_same_delta() {
    let rect = Rect { left: 100, top: 200, right: 300, bottom: 400 };
    let shifted = shift_rect(rect, 50, -20);
    assert_eq!(shifted, Rect { left: 150, top: 180, right: 350, bottom: 380 });
}

#[test]
fn shift_rect_back_by_the_opposite_delta_restores_it() {
    let r = rect(-5, 7, 40, 90);
    assert_eq!(shift_rect(shift_rect(r, 13, -8), -13, 8), r);
}

#[test]
fn overflow_right_aligns_under_chevron() {
    // chevron right at 500, overflow 200 wide -> left at 300.
    assert_eq!(overflow_position(rect(480, 0, 500, 24), 200, 0, 1000, 30), (300, 30));
}

#[test]
fn overflow_clamps_to_monitor_left() {
    // chevron near the left edge can't push the window off-screen.
    assert_eq!(overflow_position(rect(30, 0, 50, 24), 200, 0, 1000, 30).0, 0);
}

#[test]
fn overflow_clamps_to_monitor_right() {
    // A chevron past the right edge clamps so the window stays on-screen.
    assert_eq!(overflow_position(rect(1180, 0, 1200, 24), 200, 0, 1000, 30).0, 800);
}

#[test]
fn overflow_wider_than_the_monitor_pins_to_the_left_edge() {
    assert_eq!(overflow_position(rect(480, 0, 500, 24), 2000, 100, 1000, 30), (100, 30));
}

#[test]
fn overflow_window_is_the_first_class_that_exists() {
    assert_eq!(find_overflow_window(&[0, 0x55, 0x66]), Some(0x55));
    assert_eq!(find_overflow_window(&[0, 0]), None);
    assert!(overflow_available(&[0x10]));
    assert!(!overflow_available(&[]));
}

#[test]
fn scaled_rounds_to_the_nearest_pixel() {
    assert_eq!(scaled(10, 96), 10);
    assert_eq!(scaled(10, 144), 15);
    assert_eq!(scaled(3, 120), 4);
    assert_eq!(scaled(1, 144), 2);
    assert_eq!(scaled(48, 192), 96);
}

#[test]
fn rect_contains_is_right_bottom_exclusive() {
    let r = rect(0, 0, 10, 10);
    assert!(r.contains(0, 0));
    assert!(r.contains(9, 9));
    assert!(!r.contains(10, 5));
    assert!(!r.contains(5, 10));
}

#[test]
fn overflow_classes_are_tried_classic_first() {
    assert_eq!(
        groveshell::tray::overflow_class_candidates(),
        ["NotifyIconOverflowWindow", "TopLevelWindowForOverflowXamlIsland", "XamlExplorerHostIslandWindow"]
    );
}
