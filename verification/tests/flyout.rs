use groveshell::flyout::{progress_at, Flyout, FlyoutPhase, BASE_MS, FAST_MS, PROGRESS_DONE};

#[test]
fn open_moves_hidden_to_opening_or_open() {
    let mut f = Flyout::new();
    f.open(0, BASE_MS);
    // Under normal motion it's Opening; under reduced motion it's Open.
    assert!(matches!(f.phase, FlyoutPhase::Opening | FlyoutPhase::Open));
    assert!(f.is_visible());
}

#[test]
fn opening_completes_to_open() {
    let mut f = Flyout::new();
    f.phase = FlyoutPhase::Opening;
    f.force_complete();
    assert_eq!(f.phase, FlyoutPhase::Open);
}

#[test]
fn close_from_open_goes_to_closing_then_hidden() {
    let mut f = Flyout::new();
    f.open_instant();
    f.phase = FlyoutPhase::Closing; // simulate a nonzero-duration close
    f.force_complete();
    assert_eq!(f.phase, FlyoutPhase::Hidden);
    assert!(!f.is_visible());
}

#[test]
fn close_on_hidden_is_a_noop() {
    let mut f = Flyout::new();
    f.close(0, BASE_MS);
    assert_eq!(f.phase, FlyoutPhase::Hidden);
}

#[test]
fn open_instant_is_fully_open() {
    let mut f = Flyout::new();
    f.open_instant();
    assert_eq!(f.phase, FlyoutPhase::Open);
    assert_eq!(f.tick(12_345), PROGRESS_DONE);
    assert!(!f.is_animating());
}

#[test]
fn reduced_motion_open_and_close_land_at_rest() {
    let mut f = Flyout::new();
    f.open(100, 0);
    assert_eq!(f.phase, FlyoutPhase::Open);
    f.close(200, 0);
    assert_eq!(f.phase, FlyoutPhase::Hidden);
}

#[test]
fn a_full_open_close_cycle_returns_to_hidden() {
    let mut f = Flyout::new();
    f.open(1_000, FAST_MS);
    assert!(f.is_animating());
    assert_eq!(f.tick(1_090), 500);
    assert_eq!(f.phase, FlyoutPhase::Opening);
    assert_eq!(f.tick(1_000 + FAST_MS as u64), PROGRESS_DONE);
    assert_eq!(f.phase, FlyoutPhase::Open);
    f.close(2_000, FAST_MS);
    assert_eq!(f.phase, FlyoutPhase::Closing);
    assert!(f.is_visible());
    f.tick(5_000);
    assert_eq!(f.phase, FlyoutPhase::Hidden);
    assert!(!f.is_visible());
}

#[test]
fn progress_is_linear_and_clamped() {
    assert_eq!(progress_at(100, 200, 50), 0);
    assert_eq!(progress_at(100, 200, 150), 250);
    assert_eq!(progress_at(100, 200, 300), 1000);
    assert_eq!(progress_at(100, 0, 100), 1000);
}
