use groveshell::geometry::Rect;
use groveshell::overview::OverviewPhase;
use groveshell::overview_anim::{
    close_focus_target, close_overview, on_animation_tick, on_overview_hover, open_overview, start_slide, DockGlow,
    FadeCompletion, OverviewAnimations, ThumbGlow, TickOutcome, ANIM_DURATION_MS, CAROUSEL_SNAP_MS, WINDOW_POP_MS,
};
use groveshell::thumb_grid::layout_grid;

fn closed() -> OverviewAnimations {
    OverviewAnimations {
        phase: OverviewPhase::Closed,
        fade_started_ms: 0,
        focus_after: None,
        carousel_started_ms: None,
        carousel_close_after: None,
        pop_started_ms: None,
        card_hover_started_ms: None,
        thumb_hover: None,
        dock_hover: None,
    }
}

#[test]
fn the_fade_in_completes_after_its_duration() {
    let mut a = closed();
    assert!(open_overview(&mut a, 1_000));
    assert_eq!(a.phase, OverviewPhase::Opening);
    assert!(!open_overview(&mut a, 1_010));
    let mid = on_animation_tick(&mut a, 1_100);
    assert_eq!(mid, TickOutcome { completion: None, carousel_landed: false, close_after: None, keep_timer: true });
    assert_eq!(a.phase, OverviewPhase::Opening);
    let end = on_animation_tick(&mut a, 1_000 + ANIM_DURATION_MS);
    assert_eq!(end.completion, Some(FadeCompletion::Opened));
    assert!(!end.keep_timer);
    assert_eq!(a.phase, OverviewPhase::Open);
}

#[test]
fn closing_hands_focus_to_the_requested_window_when_the_fade_ends() {
    let mut a = closed();
    open_overview(&mut a, 0);
    on_animation_tick(&mut a, ANIM_DURATION_MS);
    a.thumb_hover = Some(ThumbGlow { hwnd: 9, started_ms: 100 });
    a.pop_started_ms = Some(200);
    assert!(close_overview(&mut a, 5_000, Some(77)));
    assert_eq!(a.phase, OverviewPhase::Closing);
    assert_eq!(a.thumb_hover, None);
    assert_eq!(a.pop_started_ms, None);
    assert!(!close_overview(&mut a, 5_001, None));
    let out = on_animation_tick(&mut a, 5_000 + ANIM_DURATION_MS);
    assert_eq!(out.completion, Some(FadeCompletion::Closed { focus_after: Some(77) }));
    assert_eq!(a.phase, OverviewPhase::Closed);
}

#[test]
fn a_landed_slide_reports_its_close_onto_window_once() {
    let mut a = closed();
    a.phase = OverviewPhase::Open;
    assert!(start_slide(&mut a, 100, false, Some(42)));
    let running = on_animation_tick(&mut a, 200);
    assert!(!running.carousel_landed && running.keep_timer);
    let landed = on_animation_tick(&mut a, 100 + CAROUSEL_SNAP_MS);
    assert!(landed.carousel_landed);
    assert_eq!(landed.close_after, Some(42));
    assert!(!landed.keep_timer);
    let after = on_animation_tick(&mut a, 1_000);
    assert!(!after.carousel_landed);
    assert_eq!(after.close_after, None);
}

#[test]
fn a_slide_to_where_the_carousel_is_is_dropped() {
    let mut a = closed();
    a.phase = OverviewPhase::Open;
    assert!(!start_slide(&mut a, 100, true, None));
    assert_eq!(a.carousel_started_ms, None);
    assert!(start_slide(&mut a, 100, true, Some(3)));
    a.phase = OverviewPhase::Closing;
    let before = a;
    assert!(!start_slide(&mut a, 150, false, None));
    assert_eq!(a, before);
}

#[test]
fn pops_and_glows_keep_the_timer_until_they_finish() {
    let mut a = closed();
    a.phase = OverviewPhase::Open;
    a.pop_started_ms = Some(0);
    assert!(on_animation_tick(&mut a, WINDOW_POP_MS - 1).keep_timer);
    assert!(a.pop_started_ms.is_some());
    a.dock_hover = Some(DockGlow { index: 2, started_ms: 100 });
    let out = on_animation_tick(&mut a, WINDOW_POP_MS);
    assert_eq!(a.pop_started_ms, None);
    assert!(out.keep_timer);
    assert!(!on_animation_tick(&mut a, 100 + 220).keep_timer);
}

#[test]
fn hover_prefers_the_dock_and_restarts_glows_on_change() {
    let mut a = closed();
    a.phase = OverviewPhase::Open;
    let dock = [Rect { left: 0, top: 500, right: 40, bottom: 540 }, Rect { left: 50, top: 500, right: 90, bottom: 540 }];
    assert!(on_overview_hover(&mut a, false, &dock, Some(7), 100, 100, 10));
    assert_eq!(a.thumb_hover, Some(ThumbGlow { hwnd: 7, started_ms: 10 }));
    assert!(!on_overview_hover(&mut a, false, &dock, Some(7), 101, 100, 20));
    assert_eq!(a.thumb_hover, Some(ThumbGlow { hwnd: 7, started_ms: 10 }));
    assert!(on_overview_hover(&mut a, false, &dock, Some(7), 60, 510, 30));
    assert_eq!(a.thumb_hover, None);
    assert_eq!(a.dock_hover, Some(DockGlow { index: 1, started_ms: 30 }));
    assert!(!on_overview_hover(&mut a, true, &dock, None, 0, 0, 40));
    assert_eq!(a.dock_hover, Some(DockGlow { index: 1, started_ms: 30 }));
}

#[test]
fn closing_focus_falls_back_to_the_previous_window_on_this_workspace() {
    assert_eq!(close_focus_target(Some(5), 9, 1, true), Some(5));
    assert_eq!(close_focus_target(None, 9, 1, true), Some(9));
    assert_eq!(close_focus_target(None, 9, 1, false), None);
    assert_eq!(close_focus_target(None, 0, 1, true), None);
    assert_eq!(close_focus_target(None, 1, 1, true), None);
}

#[test]
fn grid_of_one_window_fills_the_card_content() {
    // 1000x600 card at 96 DPI: content 944x544, one cell.
    let card = Rect { left: 0, top: 0, right: 1000, bottom: 600 };
    let win = Rect { left: 0, top: 0, right: 1920, bottom: 1080 };
    let slots = layout_grid(card, 96, &[win]);
    assert_eq!(slots.len(), 1);
    let (thumb, icon) = slots[0];
    // Slot 924 x 510 (cell minus gap and badge band): a 16:9 window fills its height.
    assert_eq!(thumb.bottom - thumb.top, 510);
    assert_eq!(thumb.right - thumb.left, 907);
    assert_eq!(icon.right - icon.left, 28);
    assert_eq!(icon.top, thumb.bottom - 14);
    assert_eq!((icon.left + icon.right) / 2, (thumb.left + thumb.right) / 2);
}

#[test]
fn grid_uses_ceil_sqrt_columns_and_keeps_order() {
    let card = Rect { left: 100, top: 100, right: 1100, bottom: 700 };
    let wins = vec![Rect { left: 0, top: 0, right: 800, bottom: 600 }; 5];
    let slots = layout_grid(card, 96, &wins);
    assert_eq!(slots.len(), 5);
    // Three columns, two rows: the fourth window starts the second row.
    assert_eq!(slots[3].0.left, slots[0].0.left);
    assert!(slots[3].0.top > slots[0].0.top);
    assert!(slots[1].0.left > slots[0].0.left);
    assert!(slots[2].0.left > slots[1].0.left);
    for (thumb, _) in &slots {
        assert!(thumb.left >= 128 && thumb.right <= 1072);
        assert!(thumb.top >= 128 && thumb.bottom <= 672);
    }
    assert!(layout_grid(card, 96, &[]).is_empty());
}

#[test]
fn a_tall_window_fills_the_slot_height_and_keeps_its_aspect() {
    let card = Rect { left: 0, top: 0, right: 1000, bottom: 600 };
    let tall = Rect { left: 0, top: 0, right: 500, bottom: 1000 };
    let (thumb, _) = layout_grid(card, 96, &[tall])[0];
    assert_eq!(thumb.bottom - thumb.top, 510);
    assert_eq!(thumb.right - thumb.left, 255);
}
