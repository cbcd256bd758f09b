use groveshell::desktop_dock::{icon_at, panel_geometry, terminal_of, AutoHide, RevealPhase, ICON_GAP};
use groveshell::flyout::BASE_MS;

#[test]
fn hot_edge_from_hidden_starts_revealing_or_shows() {
    let mut a = AutoHide::new();
    a.on_hot_edge(0, BASE_MS);
    assert!(matches!(a.phase, RevealPhase::Revealing | RevealPhase::Shown));
}

#[test]
fn leave_from_shown_starts_hiding_or_hides() {
    let mut a = AutoHide::new();
    a.force(RevealPhase::Shown);
    a.on_leave(0, BASE_MS);
    assert!(matches!(a.phase, RevealPhase::Hiding | RevealPhase::Hidden));
}

#[test]
fn hot_edge_cancels_an_in_progress_hide() {
    let mut a = AutoHide::new();
    a.force(RevealPhase::Hiding);
    a.on_hot_edge(0, BASE_MS);
    assert_eq!(a.phase, RevealPhase::Shown);
}

#[test]
fn panel_geometry_spaces_centers_by_one_pitch() {
    let geo = panel_geometry(3, 48, 96);
    assert_eq!(geo.centers.len(), 3);
    let pitch = geo.centers[1] - geo.centers[0];
    assert_eq!(geo.centers[2] - geo.centers[1], pitch);
    // Pitch is one icon plus one gap at this DPI.
    assert_eq!(pitch, 48 + ICON_GAP);
}

#[test]
fn panel_geometry_window_is_taller_and_wider_than_the_panel() {
    let geo = panel_geometry(5, 48, 96);
    let panel_w = geo.panel_rect.right - geo.panel_rect.left;
    let panel_h = geo.panel_rect.bottom - geo.panel_rect.top;
    assert!(geo.window_w > panel_w, "window needs side headroom for end-icon magnification");
    assert!(geo.window_h > panel_h, "window needs top headroom for the wave crest");
}

#[test]
fn panel_geometry_clamps_an_empty_dock_to_one_slot() {
    let geo = panel_geometry(0, 48, 96);
    assert_eq!(geo.centers.len(), 1);
    assert!(geo.window_w > 0 && geo.window_h > 0);
}

#[test]
fn icon_at_hits_each_center_and_misses_past_the_ends() {
    let geo = panel_geometry(3, 48, 96);
    assert_eq!(icon_at(&geo, geo.centers[0], 96), Some(0));
    assert_eq!(icon_at(&geo, geo.centers[2], 96), Some(2));
    assert_eq!(icon_at(&geo, geo.centers[0] - 1000, 96), None);
    assert_eq!(icon_at(&geo, geo.centers[2] + 1000, 96), None);
}

#[test]
fn reveal_completes_after_its_duration_and_hide_follows() {
    let mut a = AutoHide::new();
    a.on_hot_edge(1_000, BASE_MS);
    assert_eq!(a.phase, RevealPhase::Revealing);
    assert!(a.is_animating());
    let p = a.tick(1_125);
    assert_eq!(p, 500);
    assert_eq!(a.phase, RevealPhase::Revealing);
    a.tick(1_000 + BASE_MS as u64);
    assert_eq!(a.phase, RevealPhase::Shown);
    assert!(!a.is_animating());
    a.on_leave(2_000, BASE_MS);
    assert_eq!(a.phase, RevealPhase::Hiding);
    a.tick(2_000 + BASE_MS as u64);
    assert_eq!(a.phase, RevealPhase::Hidden);
}

#[test]
fn zero_duration_lands_directly_at_rest() {
    let mut a = AutoHide::new();
    a.on_hot_edge(0, 0);
    assert_eq!(a.phase, RevealPhase::Shown);
    a.on_leave(0, 0);
    assert_eq!(a.phase, RevealPhase::Hidden);
    assert_eq!(terminal_of(RevealPhase::Revealing), RevealPhase::Shown);
    assert_eq!(terminal_of(RevealPhase::Hiding), RevealPhase::Hidden);
}

#[test]
fn update_autohide_reveals_at_the_edge_and_hides_off_the_footprint() {
    let mut a = AutoHide::new();
    assert!(!a.update_autohide(false, false, 0, BASE_MS));
    assert_eq!(a.phase, RevealPhase::Hidden);
    assert!(!a.update_autohide(false, true, 0, BASE_MS));
    assert_eq!(a.phase, RevealPhase::Revealing);
    assert!(!a.update_autohide(true, false, 10, BASE_MS));
    assert_eq!(a.phase, RevealPhase::Revealing);
    assert!(a.update_autohide(false, false, 20, BASE_MS));
    assert_eq!(a.phase, RevealPhase::Hiding);
}

#[test]
fn panel_geometry_at_reference_dpi_exact_values() {
    let geo = panel_geometry(2, 48, 96);
    assert_eq!(geo.icon, 48);
    assert_eq!(geo.centers[1] - geo.centers[0], 60);
    let panel_w = geo.panel_rect.right - geo.panel_rect.left;
    // Two icons, one gap, padding on both sides.
    assert_eq!(panel_w, 2 * 48 + 12 + 2 * 14);
}
