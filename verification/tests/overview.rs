use groveshell::geometry::Rect;
use groveshell::overview::{
    on_overview_arrow, on_overview_char, on_overview_click, on_overview_drag_end, on_overview_drag_move,
    on_overview_drag_start, rebuild_open_overview_pages, search_layout, toggle_overview_for, CarouselDrag,
    CharAction, DragEnd, DragMove, DragStart, Overview, OverviewClick, OverviewHit, OverviewPhase, OverviewToggle,
    WindowDrag, CHAR_BACKSPACE, CHAR_ENTER, SEARCH_QUERY_MAX_CHARS,
};
use groveshell::overview::{
    drag_hover_page, excluded_window, ghost_draw, preview_draw, GhostDraw, Point, PreviewDraw, WindowPop,
};
use groveshell::state::FlyoutFlags;

fn with_phase(phase: OverviewPhase) -> Overview {
    let mut ov = Overview::new();
    ov.anim.phase = phase;
    ov
}

fn rect(left: i32, top: i32, right: i32, bottom: i32) -> Rect {
    Rect { left, top, right, bottom }
}

fn flyouts_open() -> FlyoutFlags {
    FlyoutFlags { calendar_open: true, quick_settings_open: true, qs_volume_dragging: true }
}

#[test]
fn toggling_opens_a_closed_overview_and_closes_any_other() {
    let mut ov = Some(with_phase(OverviewPhase::Closed));
    let mut f = flyouts_open();
    assert_eq!(toggle_overview_for(&mut ov, &mut f, 3, 100), OverviewToggle::Open { page: 3 });
    let o = ov.as_ref().unwrap();
    assert_eq!(o.anim.phase, OverviewPhase::Opening);
    assert_eq!(o.anim.fade_started_ms, 100);
    assert_eq!(f, FlyoutFlags { calendar_open: false, quick_settings_open: false, qs_volume_dragging: false });

    let mut open = with_phase(OverviewPhase::Open);
    open.search_query = vec!['a'];
    open.carousel_drag = Some(CarouselDrag { start_x: 1, max_delta: 2 });
    let mut ov = Some(open);
    let mut f = flyouts_open();
    assert_eq!(toggle_overview_for(&mut ov, &mut f, 0, 200), OverviewToggle::Close);
    let o = ov.as_ref().unwrap();
    assert_eq!(o.anim.phase, OverviewPhase::Closing);
    assert_eq!(o.anim.focus_after, None);
    assert!(o.search_query.is_empty());
    assert_eq!(o.carousel_drag, None);
    assert_eq!(f, flyouts_open());

    let mut ov = Some(with_phase(OverviewPhase::Opening));
    assert_eq!(toggle_overview_for(&mut ov, &mut f, 0, 0), OverviewToggle::Close);
    let mut ov = Some(with_phase(OverviewPhase::Closing));
    assert_eq!(toggle_overview_for(&mut ov, &mut f, 0, 0), OverviewToggle::Close);
    assert_eq!(ov.as_ref().unwrap().anim.phase, OverviewPhase::Closing);
    let mut none: Option<Overview> = None;
    assert_eq!(toggle_overview_for(&mut none, &mut f, 0, 0), OverviewToggle::Nothing);
    assert!(none.is_none());
}

#[test]
fn clicks_focus_snap_or_cancel() {
    let click = |hit: Option<OverviewHit>| {
        let mut ov = with_phase(OverviewPhase::Open);
        let r = on_overview_click(&mut ov, &[], &[], hit, 1, 0, 0, 5);
        (r, ov.anim.phase)
    };
    assert_eq!(
        click(Some(OverviewHit::Window { page: 1, hwnd: 77 })),
        (OverviewClick::Close { focus: Some(77) }, OverviewPhase::Closing)
    );
    assert_eq!(
        click(Some(OverviewHit::Window { page: 2, hwnd: 77 })),
        (OverviewClick::SnapTo { page: 2, focus: Some(77) }, OverviewPhase::Open)
    );
    assert_eq!(
        click(Some(OverviewHit::EmptyPage { page: 0 })),
        (OverviewClick::SnapTo { page: 0, focus: None }, OverviewPhase::Open)
    );
    assert_eq!(
        click(Some(OverviewHit::EmptyPage { page: 1 })),
        (OverviewClick::Close { focus: None }, OverviewPhase::Closing)
    );
    assert_eq!(click(None), (OverviewClick::Close { focus: None }, OverviewPhase::Closing));
}

#[test]
fn an_active_search_owns_clicks() {
    let rows = [rect(0, 0, 100, 10), rect(0, 10, 100, 20), rect(0, 20, 100, 30)];
    let dock = [rect(0, 0, 100, 100)];
    let hit = Some(OverviewHit::Window { page: 0, hwnd: 9 });
    let mut ov = with_phase(OverviewPhase::Open);
    ov.search_query = vec!['n', 'o'];
    assert_eq!(on_overview_click(&mut ov, &rows, &dock, hit, 0, 5, 25, 1), OverviewClick::ActivateResult { index: 1 });
    assert!(ov.search_query.is_empty());
    assert_eq!(ov.anim.phase, OverviewPhase::Open);

    let mut ov = with_phase(OverviewPhase::Open);
    ov.search_query = vec!['n', 'o'];
    assert_eq!(on_overview_click(&mut ov, &rows, &dock, hit, 0, 5, 5, 1), OverviewClick::DismissSearch);
    assert!(ov.search_query.is_empty());
    assert_eq!(ov.anim.phase, OverviewPhase::Open);
}

#[test]
fn the_dock_is_hit_tested_before_the_cards() {
    let dock = [rect(0, 500, 40, 540), rect(50, 500, 90, 540)];
    let hit = Some(OverviewHit::Window { page: 0, hwnd: 9 });
    let mut ov = with_phase(OverviewPhase::Open);
    assert_eq!(on_overview_click(&mut ov, &[], &dock, hit, 0, 60, 510, 1), OverviewClick::ActivateDock { index: 1 });
    assert_eq!(ov.anim.phase, OverviewPhase::Open);
    let mut opening = with_phase(OverviewPhase::Opening);
    assert_eq!(on_overview_click(&mut opening, &[], &dock, hit, 0, 60, 510, 1), OverviewClick::Close { focus: None });
    assert_eq!(opening.anim.phase, OverviewPhase::Closing);
}

#[test]
fn drag_end_tells_clicks_from_drags_at_the_threshold() {
    let drag = |max_delta: i32| WindowDrag {
        hwnd: 5,
        from_page: 0,
        start_x: 0,
        start_y: 0,
        cur_x: 0,
        cur_y: 0,
        max_delta,
        base_w: 10,
        base_h: 10,
        hover_page: None,
        hover_started_ms: 0,
    };
    let hit = Some(OverviewHit::Window { page: 2, hwnd: 7 });
    let snap = OverviewClick::SnapTo { page: 2, focus: Some(7) };

    let mut ov = with_phase(OverviewPhase::Open);
    ov.window_drag = Some(drag(6));
    ov.carousel_drag = Some(CarouselDrag { start_x: 0, max_delta: 100 });
    ov.anim.pop_started_ms = Some(3);
    assert_eq!(on_overview_drag_end(&mut ov, &[], &[], hit, 0, 0, 0, 50), DragEnd::WindowClick(snap));
    assert_eq!((ov.window_drag, ov.anim.pop_started_ms), (None, None));

    let mut ov = with_phase(OverviewPhase::Open);
    ov.window_drag = Some(drag(7));
    assert_eq!(on_overview_drag_end(&mut ov, &[], &[], hit, 0, 0, 0, 50), DragEnd::WindowDrop(drag(7)));
    assert_eq!((ov.window_drag, ov.anim.pop_started_ms), (None, Some(50)));

    let mut ov = with_phase(OverviewPhase::Open);
    ov.carousel_drag = Some(CarouselDrag { start_x: 0, max_delta: 0 });
    assert_eq!(on_overview_drag_end(&mut ov, &[], &[], hit, 0, 0, 0, 50), DragEnd::CarouselClick(snap));
    assert_eq!(ov.carousel_drag, None);

    let mut ov = with_phase(OverviewPhase::Open);
    ov.carousel_drag = Some(CarouselDrag { start_x: 0, max_delta: 30 });
    assert_eq!(on_overview_drag_end(&mut ov, &[], &[], hit, 0, 0, 0, 50), DragEnd::CarouselSnap);
    assert_eq!(ov.carousel_drag, None);

    let mut ov = with_phase(OverviewPhase::Open);
    assert_eq!(on_overview_drag_end(&mut ov, &[], &[], None, 0, 0, 0, 50), DragEnd::Click(OverviewClick::Close { focus: None }));
    assert_eq!(ov.anim.phase, OverviewPhase::Closing);
}

#[test]
fn a_short_carousel_press_clicks_like_a_plain_click() {
    let hit = Some(OverviewHit::EmptyPage { page: 1 });
    let mut pressed = with_phase(OverviewPhase::Open);
    pressed.carousel_drag = Some(CarouselDrag { start_x: 10, max_delta: 6 });
    let mut plain = with_phase(OverviewPhase::Open);
    let released = on_overview_drag_end(&mut pressed, &[], &[], hit, 0, 12, 40, 9);
    let clicked = on_overview_click(&mut plain, &[], &[], hit, 0, 12, 40, 9);
    assert_eq!(released, DragEnd::CarouselClick(clicked));
    assert_eq!(pressed.anim, plain.anim);
    assert_eq!(pressed.carousel_drag, plain.carousel_drag);
}

#[test]
fn drag_move_tracks_peak_travel_and_hover_changes() {
    let mut ov = with_phase(OverviewPhase::Open);
    ov.window_drag = Some(WindowDrag {
        hwnd: 5,
        from_page: 0,
        start_x: 100,
        start_y: 100,
        cur_x: 100,
        cur_y: 100,
        max_delta: 0,
        base_w: 10,
        base_h: 10,
        hover_page: None,
        hover_started_ms: 0,
    });
    assert_eq!(on_overview_drag_move(&mut ov, 130, 90, Some(1), 500), DragMove::Window);
    let d = ov.window_drag.unwrap();
    assert_eq!((d.cur_x, d.cur_y, d.max_delta), (130, 90, 30));
    assert_eq!((d.hover_page, d.hover_started_ms), (Some(1), 500));
    on_overview_drag_move(&mut ov, 105, 100, Some(1), 900);
    let d = ov.window_drag.unwrap();
    assert_eq!(d.max_delta, 30);
    assert_eq!(d.hover_started_ms, 500);
    on_overview_drag_move(&mut ov, 100, 20, Some(2), 1000);
    let d = ov.window_drag.unwrap();
    assert_eq!(d.max_delta, 80);
    assert_eq!(d.hover_started_ms, 1000);
}

#[test]
fn a_carousel_swipe_tracks_its_peak_travel() {
    let mut ov = with_phase(OverviewPhase::Open);
    ov.carousel_drag = Some(CarouselDrag { start_x: 200, max_delta: 0 });
    assert_eq!(on_overview_drag_move(&mut ov, 150, 0, None, 1), DragMove::Carousel { delta_px: -50 });
    assert_eq!(on_overview_drag_move(&mut ov, 210, 0, None, 2), DragMove::Carousel { delta_px: 10 });
    assert_eq!(ov.carousel_drag, Some(CarouselDrag { start_x: 200, max_delta: 50 }));
    let mut idle = with_phase(OverviewPhase::Open);
    assert_eq!(on_overview_drag_move(&mut idle, 1, 1, None, 1), DragMove::Nothing);
}

#[test]
fn a_press_starts_a_window_drag_a_carousel_drag_or_nothing() {
    let dock = [rect(0, 500, 40, 540)];
    let mut ov = with_phase(OverviewPhase::Open);
    let w = on_overview_drag_start(&mut ov, &dock, Some((33, 2, 120, 80)), 10, 20, 99);
    let d = WindowDrag {
        hwnd: 33,
        from_page: 2,
        start_x: 10,
        start_y: 20,
        cur_x: 10,
        cur_y: 20,
        max_delta: 0,
        base_w: 120,
        base_h: 80,
        hover_page: Some(2),
        hover_started_ms: 99,
    };
    assert_eq!(w, DragStart::Window(d));
    assert_eq!((ov.window_drag, ov.anim.pop_started_ms), (Some(d), Some(99)));

    let mut ov = with_phase(OverviewPhase::Open);
    assert_eq!(on_overview_drag_start(&mut ov, &dock, None, 10, 20, 0), DragStart::Carousel { start_x: 10 });
    assert_eq!(ov.carousel_drag, Some(CarouselDrag { start_x: 10, max_delta: 0 }));
    let mut ov = with_phase(OverviewPhase::Open);
    assert_eq!(on_overview_drag_start(&mut ov, &dock, Some((1, 0, 1, 1)), 5, 510, 0), DragStart::Nothing);
    assert_eq!(ov.window_drag, None);
    let mut ov = with_phase(OverviewPhase::Open);
    ov.search_query = vec!['x'];
    assert_eq!(on_overview_drag_start(&mut ov, &dock, Some((1, 0, 1, 1)), 10, 20, 0), DragStart::Nothing);
    let mut ov = with_phase(OverviewPhase::Opening);
    assert_eq!(on_overview_drag_start(&mut ov, &dock, None, 10, 20, 0), DragStart::Nothing);
    assert_eq!(ov.carousel_drag, None);
}

#[test]
fn pages_are_rebuilt_only_while_idle_open() {
    assert!(rebuild_open_overview_pages(OverviewPhase::Open));
    assert!(!rebuild_open_overview_pages(OverviewPhase::Opening));
    assert!(!rebuild_open_overview_pages(OverviewPhase::Closed));
}

#[test]
fn arrows_only_act_in_an_open_overview() {
    assert_eq!(on_overview_arrow(OverviewPhase::Open, Some(3)), Some(3));
    assert_eq!(on_overview_arrow(OverviewPhase::Opening, Some(3)), None);
}

#[test]
fn typing_appends_printable_characters_and_backspace_undoes() {
    let mut q: Vec<char> = Vec::new();
    assert_eq!(on_overview_char(&mut q, OverviewPhase::Open, 'f' as u32), CharAction::Repaint);
    assert_eq!(on_overview_char(&mut q, OverviewPhase::Open, 0xE9), CharAction::Repaint);
    assert_eq!(q, vec!['f', 'é']);
    assert_eq!(on_overview_char(&mut q, OverviewPhase::Open, CHAR_BACKSPACE), CharAction::Repaint);
    assert_eq!(q, vec!['f']);
    assert_eq!(on_overview_char(&mut q, OverviewPhase::Open, CHAR_ENTER), CharAction::ActivateFirst);
    assert_eq!(q, vec!['f']);
}

#[test]
fn control_and_invalid_codes_are_ignored() {
    let mut q: Vec<char> = vec!['a'];
    assert_eq!(on_overview_char(&mut q, OverviewPhase::Open, 0x01), CharAction::Nothing);
    assert_eq!(on_overview_char(&mut q, OverviewPhase::Open, 0x85), CharAction::Nothing);
    // A lone surrogate and a value past U+10FFFF are not characters.
    assert_eq!(on_overview_char(&mut q, OverviewPhase::Open, 0xD800), CharAction::Nothing);
    assert_eq!(on_overview_char(&mut q, OverviewPhase::Open, 0x11_0000), CharAction::Nothing);
    assert_eq!(q, vec!['a']);
    assert_eq!(on_overview_char(&mut q, OverviewPhase::Closing, 'b' as u32), CharAction::Nothing);
    assert_eq!(q, vec!['a']);
    let mut empty: Vec<char> = Vec::new();
    assert_eq!(on_overview_char(&mut empty, OverviewPhase::Open, CHAR_ENTER), CharAction::Nothing);
    assert_eq!(on_overview_char(&mut empty, OverviewPhase::Open, CHAR_BACKSPACE), CharAction::Repaint);
    assert!(empty.is_empty());
}

#[test]
fn the_query_stops_growing_at_its_limit() {
    let mut q: Vec<char> = vec!['x'; SEARCH_QUERY_MAX_CHARS];
    assert_eq!(on_overview_char(&mut q, OverviewPhase::Open, 'y' as u32), CharAction::Nothing);
    assert_eq!(q.len(), SEARCH_QUERY_MAX_CHARS);
}

#[test]
fn search_layout_centres_the_panel_on_the_card() {
    let card = Rect { left: 100, top: 100, right: 1100, bottom: 700 };
    let l = search_layout(card, 96, 3);
    // A header row plus one row per result.
    assert_eq!(l.rows.len(), 4);
    assert_eq!(l.panel, Rect { left: 280, top: 38, right: 920, bottom: 38 + 4 * 36 });
    assert_eq!(l.rows[1], Rect { left: 280, top: 74, right: 920, bottom: 110 });
}

fn dragged(max_delta: i32) -> WindowDrag {
    WindowDrag {
        hwnd: 5,
        from_page: 0,
        start_x: 0,
        start_y: 0,
        cur_x: 40,
        cur_y: 50,
        max_delta,
        base_w: 120,
        base_h: 80,
        hover_page: Some(2),
        hover_started_ms: 0,
    }
}

#[test]
fn a_popping_or_dragged_window_is_left_out_of_the_grid() {
    let pop = WindowPop { hwnd: 9, base_w: 10, base_h: 10, at: None, growing: true };
    assert_eq!(excluded_window(Some(pop), Some(dragged(50))), Some(9));
    assert_eq!(excluded_window(None, Some(dragged(50))), Some(5));
    assert_eq!(excluded_window(None, Some(dragged(6))), None);
    assert_eq!(excluded_window(None, None), None);
    assert_eq!(preview_draw(5, Some(5), true), PreviewDraw::Skip);
    assert_eq!(preview_draw(6, Some(5), true), PreviewDraw::Snapshot);
    assert_eq!(preview_draw(6, None, false), PreviewDraw::Chip);
    assert_eq!(drag_hover_page(Some(dragged(50))), Some(2));
    assert_eq!(drag_hover_page(Some(dragged(3))), None);
}

#[test]
fn the_ghost_follows_a_drag_or_shrinks_at_the_drop_point() {
    let pickup = WindowPop { hwnd: 5, base_w: 120, base_h: 80, at: None, growing: true };
    assert_eq!(
        ghost_draw(Some(dragged(50)), Some(pickup)),
        GhostDraw::Drag { x: 40, y: 50, w: 120, h: 80, hwnd: 5, popping_in: true }
    );
    assert_eq!(
        ghost_draw(Some(dragged(50)), None),
        GhostDraw::Drag { x: 40, y: 50, w: 120, h: 80, hwnd: 5, popping_in: false }
    );
    let drop = WindowPop { hwnd: 5, base_w: 120, base_h: 80, at: Some(Point { x: 7, y: 8 }), growing: false };
    assert_eq!(ghost_draw(None, Some(drop)), GhostDraw::DropOut { x: 7, y: 8, w: 120, h: 80, hwnd: 5 });
    assert_eq!(ghost_draw(Some(dragged(2)), Some(pickup)), GhostDraw::Hidden);
    assert_eq!(ghost_draw(None, None), GhostDraw::Hidden);
}
