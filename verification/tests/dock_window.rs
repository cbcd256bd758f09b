use groveshell::desktop_dock::{contents_signature, dock_window_origin, needs_refresh, panel_geometry};
use groveshell::geometry::Rect;
use groveshell::monitors::claimed_work_area;
use groveshell::quick_settings::airplane_mode_on;

#[test]
fn the_contents_signature_is_an_fnv_style_fold() {
    let basis: u64 = 1469598103934665603;
    let prime: u64 = 1099511628211;
    assert_eq!(contents_signature(&[], 0), basis);
    let mut expect = basis ^ (2u64 << 1);
    for h in [0x10u64, 0x20u64] {
        expect = (expect ^ h).wrapping_mul(prime);
    }
    expect ^= 3u64 << 48;
    assert_eq!(contents_signature(&[0x10, 0x20], 3), expect);
    assert_ne!(contents_signature(&[0x10, 0x20], 3), contents_signature(&[0x20, 0x10], 3));
    assert_ne!(contents_signature(&[0x10], 3), contents_signature(&[0x10], 4));
}

#[test]
fn the_dock_refreshes_only_when_something_changed() {
    assert!(!needs_refresh(48, 48, 7, 7));
    assert!(needs_refresh(56, 48, 7, 7));
    assert!(needs_refresh(48, 48, 8, 7));
}

#[test]
fn the_dock_window_sits_centered_above_the_work_area_bottom() {
    let geo = panel_geometry(2, 48, 96);
    let work = Rect { left: 0, top: 0, right: 1920, bottom: 1040 };
    let (x, y) = dock_window_origin(work, &geo, 96);
    assert_eq!(x, (1920 - geo.window_w) / 2);
    assert_eq!(y, 1040 - 10 - geo.window_h);
}

#[test]
fn airplane_mode_means_every_radio_is_off() {
    assert_eq!(airplane_mode_on(&[]), None);
    assert_eq!(airplane_mode_on(&[true, true]), Some(true));
    assert_eq!(airplane_mode_on(&[true, false]), Some(false));
}

#[test]
fn the_claimed_work_area_starts_below_the_configured_bar() {
    let m = Rect { left: 1920, top: 0, right: 3840, bottom: 1080 };
    assert_eq!(claimed_work_area(m, 24, 96), Rect { left: 1920, top: 24, right: 3840, bottom: 1080 });
    assert_eq!(claimed_work_area(m, 32, 144), Rect { left: 1920, top: 48, right: 3840, bottom: 1080 });
}
