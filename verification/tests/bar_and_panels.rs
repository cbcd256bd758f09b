use groveshell::bar::{qs_pill_layout, region_at, scaled, settings_button_rect, BarRegion};
use groveshell::geometry::Rect;
use groveshell::quick_settings::{on_quick_settings_mouse_down, qs_layout, QsPress};
use groveshell::snapshots::{ScaledLookup, Snapshot, SnapshotStore};
use groveshell::state::{
    role_of, toggle_theme, BarWindow, ConfigMirror, FlyoutFlags, OverviewWindow, Role, ShellWindows, BAR_HEIGHT,
};

fn mid(r: Rect) -> (i32, i32) {
    ((r.left + r.right) / 2, (r.top + r.bottom) / 2)
}

#[test]
fn bar_constants_grow_with_the_bar_height() {
    assert_eq!(scaled(8, 96, BAR_HEIGHT), 8);
    assert_eq!(scaled(8, 96, 48), 16);
    assert_eq!(scaled(8, 144, 48), 24);
    assert_eq!(scaled(15, 96, 32), 20);
}

#[test]
fn bar_regions_at_the_reference_size() {
    // Activities 8..80, dots from 88 (14 px each), clock centred, pill and gear at the right.
    assert_eq!(region_at(10, 96, 1920, 24, true, 3, 24), Some(BarRegion::Activities));
    assert_eq!(region_at(88 + 14 * 3 - 1, 96, 1920, 24, true, 3, 24), Some(BarRegion::Dots));
    assert_eq!(region_at(88 + 14 * 3, 96, 1920, 24, true, 3, 24), None);
    assert_eq!(region_at(960, 96, 1920, 24, true, 3, 24), Some(BarRegion::Clock));
    assert_eq!(region_at(960, 96, 1920, 24, false, 3, 24), None);
    assert_eq!(region_at(1850, 96, 1920, 24, true, 3, 24), Some(BarRegion::QsPill));
    assert_eq!(region_at(1810, 96, 1920, 24, true, 3, 24), Some(BarRegion::SettingsGear));
}

#[test]
fn the_pill_hugs_the_right_edge_with_three_icon_slots() {
    let (pill, slots) = qs_pill_layout(1920, 96, 24, 24);
    assert_eq!(pill, Rect { left: 1829, top: 2, right: 1910, bottom: 22 });
    assert_eq!(slots[0], Rect { left: 1837, top: 4, right: 1852, bottom: 19 });
    assert_eq!(slots[2].left - slots[1].left, 25);
    let gear = settings_button_rect(pill, 96, 24, 24);
    assert_eq!(gear, Rect { left: 1803, top: 0, right: 1823, bottom: 24 });
}

#[test]
fn quick_settings_presses_hit_the_right_control() {
    let l = qs_layout(96);
    assert_eq!(l.wifi_chip, Rect { left: 40, top: 40, right: 178, bottom: 100 });
    let (x, y) = mid(l.wifi_chip);
    assert_eq!(on_quick_settings_mouse_down(&l, 96, x, y), QsPress::ToggleWifi);
    let (x, y) = mid(l.theme_chip);
    assert_eq!(on_quick_settings_mouse_down(&l, 96, x, y), QsPress::ToggleTheme);
    let (x, y) = mid(l.bluetooth_chip);
    assert_eq!(on_quick_settings_mouse_down(&l, 96, x, y), QsPress::ToggleBluetooth);
    let (x, y) = mid(l.airplane_chip);
    assert_eq!(on_quick_settings_mouse_down(&l, 96, x, y), QsPress::ToggleAirplane);
    let (x, y) = mid(l.mute_button);
    assert_eq!(on_quick_settings_mouse_down(&l, 96, x, y), QsPress::ToggleMute);
    let (x, y) = mid(l.volume_track);
    assert_eq!(on_quick_settings_mouse_down(&l, 96, x, y), QsPress::StartVolumeDrag);
    assert_eq!(on_quick_settings_mouse_down(&l, 96, x, l.volume_track.top - 8), QsPress::StartVolumeDrag);
    assert_eq!(on_quick_settings_mouse_down(&l, 96, x, l.volume_track.top - 9), QsPress::Nothing);
    let (x, y) = mid(l.battery_row);
    assert_eq!(on_quick_settings_mouse_down(&l, 96, x, y), QsPress::Nothing);
}

#[test]
fn config_mirror_reads_back_what_was_set() {
    let mut c = ConfigMirror::new();
    assert_eq!(c.dock_config(), (44, "center".to_string()));
    assert_eq!(c.bar_height_config(), BAR_HEIGHT);
    c.set_dock_config(56, "left");
    c.set_bar_height_config(36);
    assert_eq!(c.dock_config(), (56, "left".to_string()));
    assert_eq!(c.bar_height_config(), 36);
}

#[test]
fn role_of_finds_bars_then_overviews_then_flyouts() {
    let w = ShellWindows {
        bars: vec![BarWindow { hwnd: 10, is_primary: true, monitor: "A".to_string() }],
        overviews: vec![OverviewWindow { monitor: "B".to_string(), hwnd: 20 }],
        calendar: 30,
        quick_settings: 40,
    };
    assert!(matches!(role_of(10, &w), Role::Bar { is_primary: true, ref monitor } if monitor == "A"));
    assert!(matches!(role_of(20, &w), Role::Overview { ref monitor } if monitor == "B"));
    assert!(matches!(role_of(30, &w), Role::Calendar));
    assert!(matches!(role_of(40, &w), Role::QuickSettings));
    assert!(matches!(role_of(50, &w), Role::Other));
}

#[test]
fn toggle_theme_flips_a_readable_setting() {
    assert_eq!(toggle_theme(Some(true)), Some(false));
    assert_eq!(toggle_theme(Some(false)), Some(true));
    assert_eq!(toggle_theme(None), None);
}

#[test]
fn flyout_flags_close_one_flyout_at_a_time() {
    let mut f = FlyoutFlags::new();
    assert!(!f.hide_quick_settings());
    f.quick_settings_open = true;
    f.qs_volume_dragging = true;
    f.calendar_open = true;
    f.on_quick_settings_mouse_up();
    assert!(!f.qs_volume_dragging);
    assert!(f.hide_quick_settings());
    assert!(!f.quick_settings_open);
    assert!(f.calendar_open);
    assert!(f.hide_calendar());
    assert!(!f.calendar_open);
}

#[test]
fn snapshots_are_replaced_dropped_and_pruned() {
    let a = Snapshot { width: 10, height: 20, bitmap: 0x100 };
    let b = Snapshot { width: 30, height: 40, bitmap: 0x200 };
    let c = Snapshot { width: 50, height: 60, bitmap: 0x300 };
    let mut store = SnapshotStore::new();
    assert_eq!(store.window_snapshot(1), None);
    assert_eq!(store.capture(1, a), (None, None));
    assert_eq!(store.capture(2, b), (None, None));
    assert_eq!(store.capture(1, c), (Some(a), None));
    assert_eq!(store.window_snapshot(1), Some(c));
    assert_eq!(store.capture(3, a), (None, None));
    let (stale, stale_scaled) = store.retain_window_snapshots(&[3, 99]);
    assert_eq!(stale, vec![(1, c), (2, b)]);
    assert!(stale_scaled.is_empty());
    assert_eq!(store.window_snapshot(1), None);
    assert_eq!(store.window_snapshot(3), Some(a));
    assert_eq!(store.drop_window_snapshot(3), (Some(a), None));
    assert_eq!(store.drop_window_snapshot(3), (None, None));
}

#[test]
fn scaled_copies_are_cached_by_size_and_pruned_with_their_capture() {
    let full = Snapshot { width: 1920, height: 1080, bitmap: 0x100 };
    let small = Snapshot { width: 192, height: 108, bitmap: 0x900 };
    let mut store = SnapshotStore::new();
    assert_eq!(store.slot_scaled_snapshot(1, 192, 108), (ScaledLookup::Nothing, None));
    store.capture(1, full);
    assert_eq!(store.slot_scaled_snapshot(1, 0, 108), (ScaledLookup::Nothing, None));
    assert_eq!(store.slot_scaled_snapshot(1, 192, 108), (ScaledLookup::Render(full), None));
    assert_eq!(store.store_scaled(1, small), None);
    assert_eq!(store.slot_scaled_snapshot(1, 192, 108), (ScaledLookup::Cached(0x900), None));
    assert_eq!(store.slot_scaled_snapshot(1, 200, 100), (ScaledLookup::Render(full), Some(small)));
    store.store_scaled(1, small);
    store.capture(2, full);
    let (stale, stale_scaled) = store.retain_window_snapshots(&[2]);
    assert_eq!(stale, vec![(1, full)]);
    assert_eq!(stale_scaled, vec![(1, small)]);
    assert_eq!(store.slot_scaled_snapshot(1, 192, 108), (ScaledLookup::Nothing, None));
    store.store_scaled(2, small);
    assert_eq!(store.capture(2, full), (Some(full), Some(small)));
}
