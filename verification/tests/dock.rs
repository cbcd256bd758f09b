use groveshell::dock::{
    anchor_x, dock_drop_reorder, dock_running_dot_radius, init_pinned_list, next_window, pinned_count,
    reorder_target, running_dot_rects, seed_pins, DockEntry, PinnedList, DOCK_MAX_RUNNING_DOTS,
};
use groveshell::dock_apps::{build_dock_apps, LiveWindow, PinSource};
use groveshell::geometry::Rect;

fn s(v: &str) -> String {
    v.to_string()
}

#[test]
fn next_window_with_no_last_focused_returns_the_first() {
    assert_eq!(next_window(&[10, 20, 30], None), Some(10));
}

#[test]
fn next_window_advances_past_the_last_focused() {
    assert_eq!(next_window(&[10, 20, 30], Some(10)), Some(20));
}

#[test]
fn next_window_wraps_around_after_the_last_entry() {
    assert_eq!(next_window(&[10, 20, 30], Some(30)), Some(10));
}

#[test]
fn next_window_falls_back_to_first_if_last_focused_is_gone() {
    assert_eq!(next_window(&[10, 20, 30], Some(999)), Some(10));
}

#[test]
fn next_window_with_no_windows_returns_none() {
    assert_eq!(next_window(&[], Some(10)), None);
}

#[test]
fn running_dot_rects_returns_one_dot_centered_under_the_icon() {
    let slot = Rect { left: 0, top: 0, right: 20, bottom: 20 };
    let dots = running_dot_rects(slot, 1, 3, 4);
    assert_eq!(dots.len(), 1);
    assert_eq!((dots[0].left + dots[0].right) / 2, 10);
}

#[test]
fn running_dot_rects_caps_at_the_max_even_with_more_windows() {
    let slot = Rect { left: 0, top: 0, right: 20, bottom: 20 };
    let dots = running_dot_rects(slot, 10, 3, 4);
    assert_eq!(dots.len(), DOCK_MAX_RUNNING_DOTS);
}

#[test]
fn running_dot_rects_with_zero_windows_returns_empty() {
    let slot = Rect { left: 0, top: 0, right: 20, bottom: 20 };
    assert!(running_dot_rects(slot, 0, 3, 4).is_empty());
}

#[test]
fn running_dot_rects_are_evenly_spaced_and_symmetric_around_the_icon_center() {
    let slot = Rect { left: 0, top: 0, right: 40, bottom: 20 };
    let dots = running_dot_rects(slot, 3, 3, 4);
    assert_eq!(dots.len(), 3);
    let icon_center = (slot.left + slot.right) / 2;
    let first_center = (dots[0].left + dots[0].right) / 2;
    let last_center = (dots[2].left + dots[2].right) / 2;
    assert_eq!(icon_center - first_center, last_center - icon_center);
}

#[test]
fn pinned_count_counts_only_entries_with_a_launch_path() {
    let apps = vec![
        DockEntry { launch_path: Some(s("a")), windows: vec![] },
        DockEntry { launch_path: Some(s("b")), windows: vec![] },
        DockEntry { launch_path: None, windows: vec![1] },
    ];
    assert_eq!(pinned_count(&apps), 2);
}

#[test]
fn anchor_x_center_centers_content_in_the_work_area() {
    // work area 0..200, content 40 wide -> left edge at 80
    assert_eq!(anchor_x(0, 200, 40, "center"), 80);
}

#[test]
fn anchor_x_left_hugs_the_left_edge() {
    assert_eq!(anchor_x(0, 200, 40, "left"), 0);
}

#[test]
fn anchor_x_right_hugs_the_right_edge() {
    assert_eq!(anchor_x(0, 200, 40, "right"), 160);
}

#[test]
fn anchor_x_falls_back_to_center_for_an_unknown_alignment() {
    assert_eq!(anchor_x(0, 200, 40, "bogus"), 80);
}

#[test]
fn running_dots_are_exactly_placed_below_the_icon() {
    let slot = Rect { left: 0, top: 0, right: 40, bottom: 20 };
    let dots = running_dot_rects(slot, 2, 3, 4);
    assert_eq!(dots.len(), 2);
    assert_eq!(dots[1].left - dots[0].left, 2 * 3 + 4);
    assert_eq!(dots[0].right - dots[0].left, 6);
}

#[test]
fn dot_radius_scales_with_dpi() {
    assert_eq!(dock_running_dot_radius(96), 3);
    assert_eq!(dock_running_dot_radius(192), 6);
}

#[test]
fn pinning_then_unpinning_restores_the_list() {
    let mut list = PinnedList::new(vec![s("a"), s("b")]);
    assert!(list.pin_app(s("c")));
    assert_eq!(list.pinned_paths(), vec![s("a"), s("b"), s("c")]);
    assert!(!list.pin_app(s("a")));
    assert!(list.is_pinned("c"));
    assert!(list.unpin_app("c"));
    assert_eq!(list.pinned_paths(), vec![s("a"), s("b")]);
    assert!(!list.unpin_app("zzz"));
}

#[test]
fn init_pinned_list_uses_loaded_then_taskbar_then_defaults() {
    let (l, save) = init_pinned_list(Some(s("[\"x\"]")), vec![s("t")], vec![s("d")]);
    assert_eq!(l.pinned_paths(), vec![s("x")]);
    assert!(save.is_none());
    let (l, save) = init_pinned_list(None, vec![s("t")], vec![s("d")]);
    assert_eq!(l.pinned_paths(), vec![s("t")]);
    assert_eq!(save, Some(s("[\n  \"t\"\n]")));
    let (l, save) = init_pinned_list(Some(s("not json")), vec![], vec![s("d")]);
    assert_eq!(l.pinned_paths(), vec![s("d")]);
    assert_eq!(save, Some(s("[\n  \"d\"\n]")));
    assert_eq!(seed_pins(vec![], vec![s("d")]), vec![s("d")]);
}

#[test]
fn reorder_target_picks_the_nearest_pinned_slot() {
    let slots = [
        Rect { left: 0, top: 0, right: 40, bottom: 40 },
        Rect { left: 50, top: 0, right: 90, bottom: 40 },
        Rect { left: 100, top: 0, right: 140, bottom: 40 },
    ];
    assert_eq!(reorder_target(&slots, 3, 72, 0), 1);
    assert_eq!(reorder_target(&slots, 2, 130, 0), 1);
    assert_eq!(reorder_target(&slots, 0, 130, 2), 2);
}

#[test]
fn dock_drop_reorder_moves_a_pin_to_the_drop_slot_inside_the_bar() {
    let pins = vec![s("a"), s("b"), s("c")];
    let bar = Rect { left: 0, top: 0, right: 140, bottom: 40 };
    let slots = [
        Rect { left: 0, top: 0, right: 40, bottom: 40 },
        Rect { left: 50, top: 0, right: 90, bottom: 40 },
        Rect { left: 100, top: 0, right: 140, bottom: 40 },
    ];
    assert_eq!(dock_drop_reorder(&pins, bar, &slots, 120, 10, 0), Some(vec![s("b"), s("c"), s("a")]));
    assert_eq!(dock_drop_reorder(&pins, bar, &slots, 120, 60, 0), None);
}

#[test]
fn build_dock_apps_groups_windows_under_pins_then_running_apps() {
    let pins = vec![
        PinSource { path: s("C:/edge.lnk"), target_exe: Some(s("msedge.exe")) },
        PinSource { path: s("C:/files.lnk"), target_exe: Some(s("explorer.exe")) },
    ];
    let live = vec![
        LiveWindow { hwnd: 1, exe: Some(s("msedge.exe")) },
        LiveWindow { hwnd: 2, exe: Some(s("code.exe")) },
        LiveWindow { hwnd: 3, exe: Some(s("msedge.exe")) },
        LiveWindow { hwnd: 4, exe: None },
        LiveWindow { hwnd: 5, exe: Some(s("code.exe")) },
    ];
    let apps = build_dock_apps(&pins, &live);
    assert_eq!(apps.len(), 3);
    assert_eq!(apps[0].launch_path, Some(s("C:/edge.lnk")));
    assert_eq!(apps[0].windows, vec![1, 3]);
    assert_eq!(apps[1].launch_path, Some(s("C:/files.lnk")));
    assert!(apps[1].windows.is_empty());
    assert_eq!(apps[2].launch_path, None);
    assert_eq!(apps[2].windows, vec![2, 5]);
    assert_eq!(pinned_count(&apps), 2);
}

#[test]
fn build_dock_apps_matches_executables_ignoring_case() {
    let pins = vec![PinSource { path: s("C:/notes.lnk"), target_exe: Some(s("notepad.exe")) }];
    let live = vec![
        LiveWindow { hwnd: 1, exe: Some(s("Notepad.exe")) },
        LiveWindow { hwnd: 2, exe: Some(s("Code.exe")) },
        LiveWindow { hwnd: 3, exe: Some(s("CODE.EXE")) },
    ];
    let apps = build_dock_apps(&pins, &live);
    assert_eq!(apps.len(), 2);
    assert_eq!(apps[0].windows, vec![1]);
    assert_eq!(apps[1].launch_path, None);
    assert_eq!(apps[1].windows, vec![2, 3]);
}

#[test]
fn pinned_paths_compare_as_paths() {
    let mut list = PinnedList::new(vec![s("C:/Apps/tool.lnk")]);
    assert!(list.is_pinned("C:/Apps//tool.lnk"));
    assert!(list.is_pinned("C:/Apps/./tool.lnk"));
    assert!(!list.pin_app(s("C:/Apps/tool.lnk/")));
    assert!(!list.is_pinned("C:/Apps/Tool2.lnk"));
    assert!(list.unpin_app("C:/Apps//tool.lnk"));
    assert!(list.pinned_paths().is_empty());
}
