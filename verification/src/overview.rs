//! Decision cores of the Activities overview: opening/closing, click and
//! drag-release dispatch, window-drag tracking, type-to-search query
//! editing and the search panel layout. Carousel offsets are fractional
//! and stay with the front end; everything here is integral.

use vstd::prelude::*;
use crate::geometry::{div_trunc, lemma_mul_bounds, lemma_scaled_bounds, scaled, scaled_spec, Rect, MAX_DPI};
use crate::overview_anim::{close_overview, close_spec, open_overview, open_spec, OverviewAnimations};
use crate::search::{first_row_hit, search_row_hit};
use crate::state::FlyoutFlags;

verus! {

/// Which phase a monitor's overview is in.
#[derive(Clone, Copy, Debug, PartialEq, Eq, Structural)]
pub enum OverviewPhase {
    Closed,
    Opening,
    Open,
    Closing,
}

/// A carousel swipe in progress: where the press began and the peak
/// horizontal travel so far. The offset the swipe began at is fractional
/// and is kept by the front end.
#[derive(Clone, Copy, Debug, PartialEq, Eq, Structural)]
pub struct CarouselDrag {
    pub start_x: i32,
    pub max_delta: i32,
}

/// One window preview being dragged between workspace cards.
#[derive(Clone, Copy, Debug, PartialEq, Eq, Structural)]
pub struct WindowDrag {
    pub hwnd: isize,
    pub from_page: usize,
    pub start_x: i32,
    pub start_y: i32,
    pub cur_x: i32,
    pub cur_y: i32,
    /// Peak pointer travel so far (largest axis distance from the start).
    pub max_delta: i32,
    /// The preview's untransformed slot size (the ghost is painted at it).
    pub base_w: i32,
    pub base_h: i32,
    /// The card the pointer sits over, and since when (ms).
    pub hover_page: Option<usize>,
    pub hover_started_ms: u64,
}

/// One monitor's Activities overview: its phase and animations, the
/// type-to-search query, and the drag in progress, if any. The carousel
/// offset is fractional and lives in the front end.
pub struct Overview {
    pub anim: OverviewAnimations,
    pub search_query: Vec<char>,
    pub window_drag: Option<WindowDrag>,
    pub carousel_drag: Option<CarouselDrag>,
}

/// An overview as contracts speak of it: the query by its characters.
#[verifier::ext_equal]
pub struct OverviewModel {
    pub anim: OverviewAnimations,
    pub query: Seq<char>,
    pub window_drag: Option<WindowDrag>,
    pub carousel_drag: Option<CarouselDrag>,
}

impl View for Overview {
    type V = OverviewModel;

    open spec fn view(&self) -> OverviewModel {
        OverviewModel {
            anim: self.anim,
            query: self.search_query@,
            window_drag: self.window_drag,
            carousel_drag: self.carousel_drag,
        }
    }
}

/// A closed overview with nothing in flight.
pub open spec fn closed_anim() -> OverviewAnimations {
    OverviewAnimations {
        phase: OverviewPhase::Closed,
        fade_started_ms: 0,
        focus_after: None,
        carousel_started_ms: None,
        carousel_close_after: None,
        pop_started_ms: None,
        card_hover_started_ms: None,
        thumb_hover: None,
        dock_hover: None,
    }
}

/// The overview after opening it at `now`: a closed one starts fading in,
/// with no slide, swipe or dock hover left over; any other is unchanged.
pub open spec fn open_model(m: OverviewModel, now: u64) -> OverviewModel {
    if m.anim.phase == OverviewPhase::Closed {
        OverviewModel { anim: open_spec(m.anim, now), carousel_drag: None, ..m }
    } else {
        m
    }
}

/// The overview after closing it at `now` onto `focus`: an open or opening
/// one starts fading out, and every drag, slide, pop, hover and the search
/// query are dropped; a closed or closing one is unchanged.
pub open spec fn close_model(m: OverviewModel, now: u64, focus: Option<isize>) -> OverviewModel {
    if m.anim.phase == OverviewPhase::Open || m.anim.phase == OverviewPhase::Opening {
        OverviewModel { anim: close_spec(m.anim, now, focus), query: Seq::empty(), window_drag: None, carousel_drag: None }
    } else {
        m
    }
}

impl Overview {
    /// A closed overview with an empty query and no drag.
    pub fn new() -> (r: Self)
        ensures
            r@ == (OverviewModel { anim: closed_anim(), query: Seq::empty(), window_drag: None, carousel_drag: None }),
    {
        Overview {
            anim: OverviewAnimations {
                phase: OverviewPhase::Closed,
                fade_started_ms: 0,
                focus_after: None,
                carousel_started_ms: None,
                carousel_close_after: None,
                pop_started_ms: None,
                card_hover_started_ms: None,
                thumb_hover: None,
                dock_hover: None,
            },
            search_query: Vec::new(),
            window_drag: None,
            carousel_drag: None,
        }
    }

    /// Starts the fade-out at `now`, to focus `focus` (or the previously
    /// focused window) when it ends; returns whether it started closing.
    pub fn close(&mut self, now: u64, focus: Option<isize>) -> (closing: bool)
        ensures
            closing == (old(self).anim.phase == OverviewPhase::Open || old(self).anim.phase == OverviewPhase::Opening),
            final(self)@ == close_model(old(self)@, now, focus),
    {
        let closing = close_overview(&mut self.anim, now, focus);
        if closing {
            self.search_query.clear();
            self.window_drag = None;
            self.carousel_drag = None;
        }
        closing
    }
}

/// What toggling a monitor's overview does.
#[derive(Clone, Copy, Debug, PartialEq, Eq, Structural)]
pub enum OverviewToggle {
    /// It started opening: show it and center the carousel on `page`.
    Open { page: usize },
    /// It started closing.
    Close,
    /// The monitor has no overview (mid-hotplug).
    Nothing,
}

/// The flyouts after the overview opens over them: both are hidden, and an
/// open Quick Settings panel's volume drag ends with it.
pub open spec fn flyouts_hidden(f: FlyoutFlags) -> FlyoutFlags {
    FlyoutFlags {
        calendar_open: false,
        quick_settings_open: false,
        qs_volume_dragging: if f.quick_settings_open { false } else { f.qs_volume_dragging },
    }
}

/// Toggles a monitor's overview (`None` when the monitor has none): a
/// closed one opens at `now`, centered on the current workspace `current`,
/// hiding the calendar and Quick Settings; any other phase starts closing,
/// restoring the previously focused window.
pub fn toggle_overview_for(ov: &mut Option<Overview>, flyouts: &mut FlyoutFlags, current: usize, now: u64) -> (r:
    OverviewToggle)
    ensures
        match *old(ov) {
            None => r == OverviewToggle::Nothing && *final(ov) is None && *final(flyouts) == *old(flyouts),
            Some(o) => if o.anim.phase == OverviewPhase::Closed {
                &&& r == (OverviewToggle::Open { page: current })
                &&& *final(ov) is Some
                &&& final(ov)->0@ == open_model(o@, now)
                &&& *final(flyouts) == flyouts_hidden(*old(flyouts))
            } else {
                &&& r == OverviewToggle::Close
                &&& *final(ov) is Some
                &&& final(ov)->0@ == close_model(o@, now, None)
                &&& *final(flyouts) == *old(flyouts)
            },
        },
{
    let taken = ov.take();
    match taken {
        None => OverviewToggle::Nothing,
        Some(mut o) => {
            if o.anim.phase == OverviewPhase::Closed {
                let _ = flyouts.hide_calendar();
                let _ = flyouts.hide_quick_settings();
                let _ = open_overview(&mut o.anim, now);
                o.carousel_drag = None;
                *ov = Some(o);
                OverviewToggle::Open { page: current }
            } else {
                let _ = o.close(now, None);
                *ov = Some(o);
                OverviewToggle::Close
            }
        },
    }
}

/// Whether a finished workspace switch rebuilds the overview's pages in
/// place (keeping the carousel offset): only while it is idle-open.
pub fn rebuild_open_overview_pages(phase: OverviewPhase) -> (r: bool)
    ensures
        r == (phase == OverviewPhase::Open),
{
    phase == OverviewPhase::Open
}

/// What a click in an open overview landed on.
#[derive(Clone, Copy, Debug, PartialEq, Eq, Structural)]
pub enum OverviewHit {
    Window { page: usize, hwnd: isize },
    EmptyPage { page: usize },
}

/// What the overview does about a click.
#[derive(Clone, Copy, Debug, PartialEq, Eq, Structural)]
pub enum OverviewClick {
    /// While searching: activate search result `index` (the query is
    /// cleared).
    ActivateResult { index: usize },
    /// While searching, off the results: the search is dismissed, the
    /// overview stays open.
    DismissSearch,
    /// Activate dock entry `index` (focus or launch it).
    ActivateDock { index: usize },
    /// The overview closes, then focuses this window (or restores the
    /// previously focused one when `None`).
    Close { focus: Option<isize> },
    /// Switch to `page`, sliding the carousel there, then close focusing
    /// `focus` if given (otherwise stay open).
    SnapTo { page: usize, focus: Option<isize> },
}

/// Whether dock slot `i` is the first slot holding `(x, y)`.
pub open spec fn first_slot_hit(slots: Seq<Rect>, x: int, y: int, i: int) -> bool {
    &&& 0 <= i < slots.len()
    &&& slots[i].has_point(x, y)
    &&& forall|j: int| 0 <= j < i ==> !slots[j].has_point(x, y)
}

/// The result row under `(x, y)`, where there is one.
pub open spec fn row_hit_index(rows: Seq<Rect>, x: int, y: int) -> int {
    choose|i: int| first_row_hit(rows, x, y, i)
}

/// The dock slot under `(x, y)`, where there is one.
pub open spec fn slot_hit_index(slots: Seq<Rect>, x: int, y: int) -> int {
    choose|i: int| first_slot_hit(slots, x, y, i)
}

/// A card or preview hit: a window on the current page is focused (closing
/// the overview); a window elsewhere switches to its page first; empty
/// space on another page re-centers there without closing; anything else
/// cancels.
pub open spec fn hit_action(hit: Option<OverviewHit>, current: usize) -> OverviewClick {
    match hit {
        Some(OverviewHit::Window { page, hwnd }) => if page == current {
            OverviewClick::Close { focus: Some(hwnd) }
        } else {
            OverviewClick::SnapTo { page, focus: Some(hwnd) }
        },
        Some(OverviewHit::EmptyPage { page }) => if page != current {
            OverviewClick::SnapTo { page, focus: None }
        } else {
            OverviewClick::Close { focus: None }
        },
        None => OverviewClick::Close { focus: None },
    }
}

/// What a click at `(x, y)` does. An active search owns clicks: a result
/// row activates its result, anywhere else dismisses the search. Otherwise,
/// in an idle-open overview, a dock icon comes first, then the card or
/// preview `hit`; outside the idle-open phase a click just cancels.
pub open spec fn click_result(
    m: OverviewModel,
    rows: Seq<Rect>,
    slots: Seq<Rect>,
    hit: Option<OverviewHit>,
    current: usize,
    x: int,
    y: int,
) -> OverviewClick {
    if m.query.len() > 0 {
        if exists|i: int| first_row_hit(rows, x, y, i) {
            OverviewClick::ActivateResult { index: row_hit_index(rows, x, y) as usize }
        } else {
            OverviewClick::DismissSearch
        }
    } else if m.anim.phase == OverviewPhase::Open && exists|i: int| first_slot_hit(slots, x, y, i) {
        OverviewClick::ActivateDock { index: slot_hit_index(slots, x, y) as usize }
    } else if m.anim.phase == OverviewPhase::Open {
        hit_action(hit, current)
    } else {
        OverviewClick::Close { focus: None }
    }
}

/// The overview after that click at `now`: a search click clears the
/// query (and changes nothing else), a cancel or focus closes it, the rest
/// leave it as it is.
pub open spec fn click_model(
    m: OverviewModel,
    rows: Seq<Rect>,
    slots: Seq<Rect>,
    hit: Option<OverviewHit>,
    current: usize,
    x: int,
    y: int,
    now: u64,
) -> OverviewModel {
    match click_result(m, rows, slots, hit, current, x, y) {
        OverviewClick::ActivateResult { .. } => OverviewModel { query: Seq::empty(), ..m },
        OverviewClick::DismissSearch => OverviewModel { query: Seq::empty(), ..m },
        OverviewClick::Close { focus } => close_model(m, now, focus),
        _ => m,
    }
}

/// The first dock slot holding `(x, y)`.
fn dock_slot_hit(slots: &[Rect], x: i32, y: i32) -> (r: Option<usize>)
    ensures
        r matches Some(i) ==> first_slot_hit(slots@, x as int, y as int, i as int),
        r is None ==> forall|j: int| 0 <= j < slots@.len() ==> !slots@[j].has_point(x as int, y as int),
{
    let mut i: usize = 0;
    while i < slots.len()
        invariant
            i <= slots@.len(),
            forall|j: int| 0 <= j < i ==> !slots@[j].has_point(x as int, y as int),
        decreases slots.len() - i,
    {
        if slots[i].contains(x, y) {
            return Some(i);
        }
        i += 1;
    }
    None
}

/// A click at `(x, y)` at `now`. `rows` are the search panel's rows (row 0
/// is the query header) as laid out for the current results, `dock_slots`
/// the dock's icon rects, and `hit` the card or preview under the pointer
/// at the carousel's offset.
pub fn on_overview_click(
    ov: &mut Overview,
    rows: &[Rect],
    dock_slots: &[Rect],
    hit: Option<OverviewHit>,
    current: usize,
    x: i32,
    y: i32,
    now: u64,
) -> (r: OverviewClick)
    ensures
        r == click_result(old(ov)@, rows@, dock_slots@, hit, current, x as int, y as int),
        final(ov)@ == click_model(old(ov)@, rows@, dock_slots@, hit, current, x as int, y as int, now),
{
    let ghost (xi, yi) = (x as int, y as int);
    if ov.search_query.len() > 0 {
        let row = search_row_hit(rows, x, y);
        ov.search_query.clear();
        match row {
            Some(i) => {
                proof {
                    let k = row_hit_index(rows@, xi, yi);
                    assert(first_row_hit(rows@, xi, yi, i as int));
                    if k < i {
                        assert(!rows@[k + 1].has_point(xi, yi));
                    }
                    if k > i {
                        assert(!rows@[i + 1].has_point(xi, yi));
                    }
                }
                OverviewClick::ActivateResult { index: i }
            },
            None => {
                assert(!exists|i: int| first_row_hit(rows@, xi, yi, i)) by {
                    if exists|i: int| first_row_hit(rows@, xi, yi, i) {
                        let i = choose|i: int| first_row_hit(rows@, xi, yi, i);
                        assert(!rows@[i + 1].has_point(xi, yi));
                    }
                }
                OverviewClick::DismissSearch
            },
        }
    } else {
        let slot = if ov.anim.phase == OverviewPhase::Open { dock_slot_hit(dock_slots, x, y) } else { None };
        match slot {
            Some(i) => {
                proof {
                    let k = slot_hit_index(dock_slots@, xi, yi);
                    assert(first_slot_hit(dock_slots@, xi, yi, i as int));
                    if k < i {
                        assert(!dock_slots@[k].has_point(xi, yi));
                    }
                    if k > i {
                        assert(!dock_slots@[i as int].has_point(xi, yi));
                    }
                }
                OverviewClick::ActivateDock { index: i }
            },
            None => {
                if ov.anim.phase == OverviewPhase::Open {
                    assert(!exists|i: int| first_slot_hit(dock_slots@, xi, yi, i)) by {
                        if exists|i: int| first_slot_hit(dock_slots@, xi, yi, i) {
                            let i = choose|i: int| first_slot_hit(dock_slots@, xi, yi, i);
                            assert(!dock_slots@[i].has_point(xi, yi));
                        }
                    }
                }
                let action = if ov.anim.phase == OverviewPhase::Open {
                    match hit {
                        Some(OverviewHit::Window { page, hwnd }) => if page == current {
                            OverviewClick::Close { focus: Some(hwnd) }
                        } else {
                            OverviewClick::SnapTo { page, focus: Some(hwnd) }
                        },
                        Some(OverviewHit::EmptyPage { page }) => if page != current {
                            OverviewClick::SnapTo { page, focus: None }
                        } else {
                            OverviewClick::Close { focus: None }
                        },
                        None => OverviewClick::Close { focus: None },
                    }
                } else {
                    OverviewClick::Close { focus: None }
                };
                match action {
                    OverviewClick::Close { focus } => {
                        let _ = ov.close(now, focus);
                    },
                    _ => {},
                }
                action
            },
        }
    }
}

/// Pointer travel up to this many pixels is a click, not a drag.
pub const CAROUSEL_DRAG_CLICK_THRESHOLD_PX: i32 = 6;

/// What a press in the overview starts.
#[derive(Clone, Copy, Debug, PartialEq, Eq, Structural)]
pub enum DragStart {
    /// No drag: the overview is not idle-open, a search is showing (presses
    /// belong to its results), or the press is on the dock (a click on
    /// release).
    Nothing,
    /// Picking up a window preview; its ghost pops in from now.
    Window(WindowDrag),
    /// Swiping the carousel from `start_x` (the front end records the
    /// offset it starts from).
    Carousel { start_x: i32 },
}

/// A press at `(x, y)` at `now`: `thumb` is the window preview under it
/// (handle, page, and untransformed slot width and height), if any;
/// `dock_slots` are the dock's icon rects.
pub fn on_overview_drag_start(
    ov: &mut Overview,
    dock_slots: &[Rect],
    thumb: Option<(isize, usize, i32, i32)>,
    x: i32,
    y: i32,
    now: u64,
) -> (r: DragStart)
    ensures
        ({
            let m = old(ov)@;
            let on_dock = exists|i: int| 0 <= i < dock_slots@.len() && dock_slots@[i].has_point(x as int, y as int);
            let anim = OverviewAnimations { thumb_hover: None, ..m.anim };
            &&& (m.anim.phase != OverviewPhase::Open || m.query.len() > 0 || on_dock) ==> r == DragStart::Nothing
                && final(ov)@ == m
            &&& (m.anim.phase == OverviewPhase::Open && m.query.len() == 0 && !on_dock) ==> match thumb {
                Some((hwnd, page, w, h)) => {
                    let d = WindowDrag {
                        hwnd,
                        from_page: page,
                        start_x: x,
                        start_y: y,
                        cur_x: x,
                        cur_y: y,
                        max_delta: 0,
                        base_w: w,
                        base_h: h,
                        hover_page: Some(page),
                        hover_started_ms: now,
                    };
                    &&& r == DragStart::Window(d)
                    &&& final(ov)@ == (OverviewModel {
                        anim: OverviewAnimations { pop_started_ms: Some(now), ..anim },
                        window_drag: Some(d),
                        ..m
                    })
                },
                None => r == (DragStart::Carousel { start_x: x }) && final(ov)@ == (OverviewModel {
                    anim,
                    carousel_drag: Some(CarouselDrag { start_x: x, max_delta: 0 }),
                    ..m
                }),
            }
        }),
{
    if ov.anim.phase != OverviewPhase::Open || ov.search_query.len() > 0 {
        return DragStart::Nothing;
    }
    if dock_slot_hit(dock_slots, x, y).is_some() {
        return DragStart::Nothing;
    }
    ov.anim.thumb_hover = None;
    match thumb {
        Some((hwnd, page, w, h)) => {
            let d = WindowDrag {
                hwnd,
                from_page: page,
                start_x: x,
                start_y: y,
                cur_x: x,
                cur_y: y,
                max_delta: 0,
                base_w: w,
                base_h: h,
                hover_page: Some(page),
                hover_started_ms: now,
            };
            ov.window_drag = Some(d);
            ov.anim.pop_started_ms = Some(now);
            DragStart::Window(d)
        },
        None => {
            ov.carousel_drag = Some(CarouselDrag { start_x: x, max_delta: 0 });
            DragStart::Carousel { start_x: x }
        },
    }
}

/// Travel of `(x, y)` from the drag start: the larger axis distance.
pub open spec fn travel(start_x: int, start_y: int, x: int, y: int) -> int {
    let dx = if x - start_x >= 0 { x - start_x } else { start_x - x };
    let dy = if y - start_y >= 0 { y - start_y } else { start_y - y };
    if dx >= dy { dx } else { dy }
}

/// Coordinates small enough for drag arithmetic.
pub open spec fn coord_ok(v: int) -> bool {
    -1_000_000_000 <= v <= 1_000_000_000
}

/// A window drag after the pointer moved to `(x, y)` over card `hovered`
/// at `now`: the position and peak travel are tracked, and the hover glow
/// restarts when the hovered card changed.
pub open spec fn window_drag_moved(d: WindowDrag, x: i32, y: i32, hovered: Option<usize>, now: u64) -> WindowDrag {
    let t = travel(d.start_x as int, d.start_y as int, x as int, y as int);
    WindowDrag {
        cur_x: x,
        cur_y: y,
        max_delta: if d.max_delta >= t { d.max_delta } else { t as i32 },
        hover_page: hovered,
        hover_started_ms: if d.hover_page != hovered { now } else { d.hover_started_ms },
        ..d
    }
}

/// Peak horizontal travel of a carousel swipe once the pointer is at `x`.
pub open spec fn carousel_drag_moved(d: CarouselDrag, x: i32) -> CarouselDrag {
    let t = if x - d.start_x >= 0 { x - d.start_x } else { d.start_x - x };
    CarouselDrag { max_delta: if d.max_delta >= t { d.max_delta } else { t as i32 }, ..d }
}

/// What a pointer move during a press does.
#[derive(Clone, Copy, Debug, PartialEq, Eq, Structural)]
pub enum DragMove {
    /// The window ghost follows the pointer.
    Window,
    /// The carousel scrolls by `delta_px` from where the swipe began
    /// (dragging right reveals the lower-numbered pages); the front end
    /// turns it into a clamped fractional offset.
    Carousel { delta_px: i32 },
    /// No drag in progress.
    Nothing,
}

/// The pointer moved to `(x, y)` over card `hovered` at `now`, with a
/// button down: a window drag tracks the pointer, else a carousel swipe
/// tracks its peak travel and scrolls.
pub fn on_overview_drag_move(ov: &mut Overview, x: i32, y: i32, hovered: Option<usize>, now: u64) -> (r: DragMove)
    requires
        coord_ok(x as int),
        coord_ok(y as int),
        old(ov).window_drag matches Some(d) ==> coord_ok(d.start_x as int) && coord_ok(d.start_y as int),
        old(ov).carousel_drag matches Some(d) ==> coord_ok(d.start_x as int),
    ensures
        match old(ov).window_drag {
            Some(d) => r == DragMove::Window && final(ov)@ == (OverviewModel {
                window_drag: Some(window_drag_moved(d, x, y, hovered, now)),
                ..old(ov)@
            }),
            None => match old(ov).carousel_drag {
                Some(d) => r == (DragMove::Carousel { delta_px: (x - d.start_x) as i32 }) && final(ov)@ == (
                OverviewModel { carousel_drag: Some(carousel_drag_moved(d, x)), ..old(ov)@ }),
                None => r == DragMove::Nothing && final(ov)@ == old(ov)@,
            },
        },
{
    match ov.window_drag {
        Some(d) => {
            let mut d = d;
            let dx: i32 = if x - d.start_x >= 0 { x - d.start_x } else { d.start_x - x };
            let dy: i32 = if y - d.start_y >= 0 { y - d.start_y } else { d.start_y - y };
            let t: i32 = if dx >= dy { dx } else { dy };
            d.cur_x = x;
            d.cur_y = y;
            if t > d.max_delta {
                d.max_delta = t;
            }
            if d.hover_page != hovered {
                d.hover_page = hovered;
                d.hover_started_ms = now;
            }
            ov.window_drag = Some(d);
            DragMove::Window
        },
        None => match ov.carousel_drag {
            Some(d) => {
                let delta: i32 = x - d.start_x;
                let t: i32 = if delta >= 0 { delta } else { -delta };
                let mut d = d;
                if t > d.max_delta {
                    d.max_delta = t;
                }
                ov.carousel_drag = Some(d);
                DragMove::Carousel { delta_px: delta }
            },
            None => DragMove::Nothing,
        },
    }
}

/// How a button release in the overview is handled.
#[derive(Clone, Copy, Debug, PartialEq, Eq, Structural)]
pub enum DragEnd {
    /// A window press that never moved far: the pickup pop is dropped and
    /// the release is this click.
    WindowClick(OverviewClick),
    /// A real window drag: the front end drops it on the card under the
    /// pointer; the ghost pops out from now.
    WindowDrop(WindowDrag),
    /// A carousel press that barely moved: the front end puts the offset
    /// back where the press began, and the release is this click.
    CarouselClick(OverviewClick),
    /// A real carousel swipe: snap to the nearest page.
    CarouselSnap,
    /// No drag in progress: a plain click.
    Click(OverviewClick),
}

/// The overview and the outcome after a release at `(x, y)` at `now`
/// (see `on_overview_drag_end`).
pub open spec fn drag_end_spec(
    m: OverviewModel,
    rows: Seq<Rect>,
    slots: Seq<Rect>,
    hit: Option<OverviewHit>,
    current: usize,
    x: int,
    y: int,
    now: u64,
) -> (OverviewModel, DragEnd) {
    match m.window_drag {
        Some(d) => {
            let m1 = OverviewModel { window_drag: None, ..m };
            if d.max_delta <= CAROUSEL_DRAG_CLICK_THRESHOLD_PX {
                let m2 = OverviewModel { anim: OverviewAnimations { pop_started_ms: None, ..m1.anim }, ..m1 };
                (
                    click_model(m2, rows, slots, hit, current, x, y, now),
                    DragEnd::WindowClick(click_result(m2, rows, slots, hit, current, x, y)),
                )
            } else {
                (
                    OverviewModel { anim: OverviewAnimations { pop_started_ms: Some(now), ..m1.anim }, ..m1 },
                    DragEnd::WindowDrop(d),
                )
            }
        },
        None => match m.carousel_drag {
            Some(d) => {
                let m1 = OverviewModel { carousel_drag: None, ..m };
                if d.max_delta <= CAROUSEL_DRAG_CLICK_THRESHOLD_PX {
                    (
                        click_model(m1, rows, slots, hit, current, x, y, now),
                        DragEnd::CarouselClick(click_result(m1, rows, slots, hit, current, x, y)),
                    )
                } else {
                    (m1, DragEnd::CarouselSnap)
                }
            },
            None => (
                click_model(m, rows, slots, hit, current, x, y, now),
                DragEnd::Click(click_result(m, rows, slots, hit, current, x, y)),
            ),
        },
    }
}

/// A release at `(x, y)` at `now`: a window drag takes precedence over a
/// carousel swipe, and either one within `CAROUSEL_DRAG_CLICK_THRESHOLD_PX`
/// of travel is a click. `rows`, `dock_slots`, `hit` and `current` are as
/// for `on_overview_click`, with `hit` taken at the offset the carousel has
/// once a short swipe's offset is put back.
pub fn on_overview_drag_end(
    ov: &mut Overview,
    rows: &[Rect],
    dock_slots: &[Rect],
    hit: Option<OverviewHit>,
    current: usize,
    x: i32,
    y: i32,
    now: u64,
) -> (r: DragEnd)
    ensures
        ({
            let (m, out) = drag_end_spec(old(ov)@, rows@, dock_slots@, hit, current, x as int, y as int, now);
            final(ov)@ == m && r == out
        }),
{
    match ov.window_drag {
        Some(d) => {
            ov.window_drag = None;
            if d.max_delta <= CAROUSEL_DRAG_CLICK_THRESHOLD_PX {
                ov.anim.pop_started_ms = None;
                let c = on_overview_click(ov, rows, dock_slots, hit, current, x, y, now);
                DragEnd::WindowClick(c)
            } else {
                ov.anim.pop_started_ms = Some(now);
                DragEnd::WindowDrop(d)
            }
        },
        None => match ov.carousel_drag {
            Some(d) => {
                ov.carousel_drag = None;
                if d.max_delta <= CAROUSEL_DRAG_CLICK_THRESHOLD_PX {
                    let c = on_overview_click(ov, rows, dock_slots, hit, current, x, y, now);
                    DragEnd::CarouselClick(c)
                } else {
                    DragEnd::CarouselSnap
                }
            },
            None => DragEnd::Click(on_overview_click(ov, rows, dock_slots, hit, current, x, y, now)),
        },
    }
}

/// A carousel press released within the click threshold is a plain click
/// from the overview with the swipe dropped: the same click, the same
/// resulting overview (the front end first puts the offset back where the
/// press began).
pub proof fn lemma_short_carousel_press_is_click(
    m: OverviewModel,
    rows: Seq<Rect>,
    slots: Seq<Rect>,
    hit: Option<OverviewHit>,
    current: usize,
    x: int,
    y: int,
    now: u64,
)
    requires
        m.window_drag is None,
        m.carousel_drag matches Some(d) && d.max_delta <= CAROUSEL_DRAG_CLICK_THRESHOLD_PX,
    ensures
        ({
            let s = OverviewModel { carousel_drag: None, ..m };
            let (after, out) = drag_end_spec(m, rows, slots, hit, current, x, y, now);
            &&& after == click_model(s, rows, slots, hit, current, x, y, now)
            &&& out == DragEnd::CarouselClick(click_result(s, rows, slots, hit, current, x, y))
        }),
{
}

/// While a search is showing, a click off its result rows dismisses the
/// search and nothing else: the overview stays in its phase, with its
/// animations and drags as they were.
pub proof fn lemma_click_off_results_dismisses_search(
    m: OverviewModel,
    rows: Seq<Rect>,
    slots: Seq<Rect>,
    hit: Option<OverviewHit>,
    current: usize,
    x: int,
    y: int,
    now: u64,
)
    requires
        m.query.len() > 0,
        forall|j: int| 1 <= j < rows.len() ==> !rows[j].has_point(x, y),
    ensures
        click_result(m, rows, slots, hit, current, x, y) == OverviewClick::DismissSearch,
        click_model(m, rows, slots, hit, current, x, y, now) == (OverviewModel { query: Seq::empty(), ..m }),
{
    assert(!exists|i: int| first_row_hit(rows, x, y, i)) by {
        if exists|i: int| first_row_hit(rows, x, y, i) {
            let i = choose|i: int| first_row_hit(rows, x, y, i);
            assert(!rows[i + 1].has_point(x, y));
        }
    }
}

/// A point on the overview.
#[derive(Clone, Copy, Debug, PartialEq, Eq, Structural)]
pub struct Point {
    pub x: i32,
    pub y: i32,
}

/// A dragged window's ghost popping in (on pickup, `growing`) or out (on
/// drop, at the release point `at`).
#[derive(Clone, Copy, Debug, PartialEq, Eq, Structural)]
pub struct WindowPop {
    pub hwnd: isize,
    pub base_w: i32,
    pub base_h: i32,
    pub at: Option<Point>,
    pub growing: bool,
}

/// The window preview left out of the grid while painting: one mid-pop,
/// else one dragged past the click threshold (its ghost stands for it).
pub open spec fn excluded_spec(pop: Option<WindowPop>, drag: Option<WindowDrag>) -> Option<isize> {
    match pop {
        Some(p) => Some(p.hwnd),
        None => match drag {
            Some(d) => if d.max_delta > CAROUSEL_DRAG_CLICK_THRESHOLD_PX { Some(d.hwnd) } else { None },
            None => None,
        },
    }
}

/// See [`excluded_spec`].
pub fn excluded_window(pop: Option<WindowPop>, drag: Option<WindowDrag>) -> (r: Option<isize>)
    ensures
        r == excluded_spec(pop, drag),
{
    match pop {
        Some(p) => Some(p.hwnd),
        None => match drag {
            Some(d) => if d.max_delta > CAROUSEL_DRAG_CLICK_THRESHOLD_PX {
                Some(d.hwnd)
            } else {
                None
            },
            None => None,
        },
    }
}

/// How one window preview is painted.
#[derive(Clone, Copy, Debug, PartialEq, Eq, Structural)]
pub enum PreviewDraw {
    /// Left out (its ghost stands for it).
    Skip,
    /// Its captured snapshot, pre-scaled to the slot.
    Snapshot,
    /// The title chip, when no capture succeeded.
    Chip,
}

/// The preview of `hwnd`: skipped when it is the excluded window, else its
/// snapshot when one was captured, else its title chip.
pub fn preview_draw(hwnd: isize, excluded: Option<isize>, has_snapshot: bool) -> (r: PreviewDraw)
    ensures
        excluded == Some(hwnd) ==> r == PreviewDraw::Skip,
        excluded != Some(hwnd) && has_snapshot ==> r == PreviewDraw::Snapshot,
        excluded != Some(hwnd) && !has_snapshot ==> r == PreviewDraw::Chip,
{
    match excluded {
        Some(e) => if e == hwnd {
            return PreviewDraw::Skip;
        },
        None => {},
    }
    if has_snapshot {
        PreviewDraw::Snapshot
    } else {
        PreviewDraw::Chip
    }
}

/// The card that glows under a window drag: the hovered card, once the
/// drag is past the click threshold.
pub fn drag_hover_page(drag: Option<WindowDrag>) -> (r: Option<usize>)
    ensures
        r == (match drag {
            Some(d) => if d.max_delta > CAROUSEL_DRAG_CLICK_THRESHOLD_PX { d.hover_page } else { None },
            None => None,
        }),
{
    match drag {
        Some(d) => if d.max_delta > CAROUSEL_DRAG_CLICK_THRESHOLD_PX {
            d.hover_page
        } else {
            None
        },
        None => None,
    }
}

/// Where the drag ghost is painted, if anywhere.
#[derive(Clone, Copy, Debug, PartialEq, Eq, Structural)]
pub enum GhostDraw {
    /// No ghost.
    Hidden,
    /// Following the pointer at `(x, y)`, slot-sized; `popping_in` while
    /// its pickup pop still grows it from nothing.
    Drag { x: i32, y: i32, w: i32, h: i32, hwnd: isize, popping_in: bool },
    /// Shrinking away at the release point after a drop.
    DropOut { x: i32, y: i32, w: i32, h: i32, hwnd: isize },
}

/// A drag past the click threshold paints its ghost at the pointer (growing
/// while its own pickup pop runs); otherwise a drop-out pop with a release
/// point paints the shrinking ghost there; otherwise there is none.
pub fn ghost_draw(drag: Option<WindowDrag>, pop: Option<WindowPop>) -> (r: GhostDraw)
    ensures
        r == (match drag {
            Some(d) if d.max_delta > CAROUSEL_DRAG_CLICK_THRESHOLD_PX => GhostDraw::Drag {
                x: d.cur_x,
                y: d.cur_y,
                w: d.base_w,
                h: d.base_h,
                hwnd: d.hwnd,
                popping_in: pop matches Some(p) && p.growing && p.hwnd == d.hwnd,
            },
            _ => match pop {
                Some(p) if !p.growing => match p.at {
                    Some(a) => GhostDraw::DropOut { x: a.x, y: a.y, w: p.base_w, h: p.base_h, hwnd: p.hwnd },
                    None => GhostDraw::Hidden,
                },
                _ => GhostDraw::Hidden,
            },
        }),
{
    match drag {
        Some(d) => {
            if d.max_delta > CAROUSEL_DRAG_CLICK_THRESHOLD_PX {
                let popping_in = match pop {
                    Some(p) => p.growing && p.hwnd == d.hwnd,
                    None => false,
                };
                return GhostDraw::Drag { x: d.cur_x, y: d.cur_y, w: d.base_w, h: d.base_h, hwnd: d.hwnd, popping_in };
            }
        },
        None => {},
    }
    match pop {
        Some(p) => {
            if !p.growing {
                match p.at {
                    Some(a) => GhostDraw::DropOut { x: a.x, y: a.y, w: p.base_w, h: p.base_h, hwnd: p.hwnd },
                    None => GhostDraw::Hidden,
                }
            } else {
                GhostDraw::Hidden
            }
        },
        None => GhostDraw::Hidden,
    }
}

/// Left/Right arrow in an idle-open overview: slide to `target` (the
/// workspace tracker's clamped neighbour); ignored in any other phase.
pub fn on_overview_arrow(phase: OverviewPhase, target: Option<usize>) -> (r: Option<usize>)
    ensures
        phase == OverviewPhase::Open ==> r == target,
        phase != OverviewPhase::Open ==> r is None,
{
    if phase == OverviewPhase::Open {
        target
    } else {
        None
    }
}

/// The longest search query the overview accepts, in characters.
pub const SEARCH_QUERY_MAX_CHARS: usize = 64;

/// Whether `code` is a Unicode scalar value (what `char::from_u32` accepts).
pub open spec fn is_scalar_value(code: u32) -> bool {
    code < 0xD800 || (0xE000 <= code && code <= 0x10FFFF)
}

/// `char::from_u32`: the character with that code point, or `None` for a
/// surrogate or a value past U+10FFFF. The contract restates std's
/// documented behaviour.
#[verifier::external_body]
fn char_from_u32(code: u32) -> (r: Option<char>)
    ensures
        is_scalar_value(code) ==> r == Some(code as char),
        !is_scalar_value(code) ==> r is None,
{
    char::from_u32(code)
}

/// Unicode general category Cc: U+0000..=U+001F and U+007F..=U+009F.
pub open spec fn is_control_spec(c: char) -> bool {
    (c as u32) <= 0x1F || (0x7F <= (c as u32) && (c as u32) <= 0x9F)
}

/// Whether `c` is a control character (general category Cc), as
/// `char::is_control` decides it.
pub fn is_control(c: char) -> (r: bool)
    ensures
        r == is_control_spec(c),
{
    let v: u32 = c as u32;
    v <= 0x1F || (0x7F <= v && v <= 0x9F)
}

/// What a keystroke in the overview calls for.
#[derive(Clone, Copy, Debug, PartialEq, Eq, Structural)]
pub enum CharAction {
    /// The query changed; repaint the results.
    Repaint,
    /// Enter on a non-empty query: activate its first result.
    ActivateFirst,
    /// Nothing to do.
    Nothing,
}

/// Backspace and Enter, as `WM_CHAR` codes.
pub const CHAR_BACKSPACE: u32 = 0x08;
pub const CHAR_ENTER: u32 = 0x0D;

/// The query after keystroke `ch` in an open overview.
pub open spec fn query_after_char(q: Seq<char>, ch: u32) -> Seq<char> {
    if ch == CHAR_BACKSPACE {
        if q.len() > 0 { q.drop_last() } else { q }
    } else if ch == CHAR_ENTER && q.len() > 0 {
        q
    } else if is_scalar_value(ch) && !is_control_spec(ch as char) && q.len() < SEARCH_QUERY_MAX_CHARS {
        q.push(ch as char)
    } else {
        q
    }
}

/// The action for keystroke `ch` in an open overview with query `q`.
pub open spec fn action_after_char(q: Seq<char>, ch: u32) -> CharAction {
    if ch == CHAR_BACKSPACE {
        CharAction::Repaint
    } else if ch == CHAR_ENTER && q.len() > 0 {
        CharAction::ActivateFirst
    } else if is_scalar_value(ch) && !is_control_spec(ch as char) && q.len() < SEARCH_QUERY_MAX_CHARS {
        CharAction::Repaint
    } else {
        CharAction::Nothing
    }
}

/// Type-to-search: a printable character is appended (up to
/// `SEARCH_QUERY_MAX_CHARS`), Backspace removes the last one, Enter on a
/// non-empty query activates the first result; only while the overview is
/// idle-open.
pub fn on_overview_char(query: &mut Vec<char>, phase: OverviewPhase, ch: u32) -> (r: CharAction)
    ensures
        phase != OverviewPhase::Open ==> r == CharAction::Nothing && final(query)@ == old(query)@,
        phase == OverviewPhase::Open ==> r == action_after_char(old(query)@, ch) && final(query)@
            == query_after_char(old(query)@, ch),
{
    if phase != OverviewPhase::Open {
        return CharAction::Nothing;
    }
    if ch == CHAR_BACKSPACE {
        let _ = query.pop();
        return CharAction::Repaint;
    }
    if ch == CHAR_ENTER && query.len() > 0 {
        return CharAction::ActivateFirst;
    }
    match char_from_u32(ch) {
        Some(c) => {
            if !is_control(c) && query.len() < SEARCH_QUERY_MAX_CHARS {
                query.push(c);
                CharAction::Repaint
            } else {
                CharAction::Nothing
            }
        },
        None => CharAction::Nothing,
    }
}

/// The query never grows past `SEARCH_QUERY_MAX_CHARS`, and Backspace
/// undoes the character just typed.
pub proof fn lemma_query_editing(q: Seq<char>, ch: u32)
    ensures
        q.len() <= SEARCH_QUERY_MAX_CHARS ==> query_after_char(q, ch).len() <= SEARCH_QUERY_MAX_CHARS,
        action_after_char(q, ch) == CharAction::Repaint && ch != CHAR_BACKSPACE ==> query_after_char(
            query_after_char(q, ch),
            CHAR_BACKSPACE,
        ) =~= q,
{
}

/// 96-DPI search panel metrics (the top bar is 24 px tall).
pub const SEARCH_PANEL_WIDTH: i32 = 640;
pub const SEARCH_ROW_HEIGHT: i32 = 36;
pub const SEARCH_PANEL_GAP: i32 = 14;
pub const SEARCH_BAR_HEIGHT: i32 = 24;
/// Cap on rendered search results.
pub const SEARCH_MAX_RESULTS: usize = 8;

/// The search panel and its rows (row 0 is the query header, then one per
/// result), centered on `card`, below the top bar.
pub struct SearchLayout {
    pub panel: Rect,
    pub rows: Vec<Rect>,
}

/// Lays out the search panel for `result_count` results at `dpi`; rows are
/// stacked `SEARCH_ROW_HEIGHT` apart and the panel encloses them all.
pub fn search_layout(card: Rect, dpi: u32, result_count: usize) -> (l: SearchLayout)
    requires
        dpi <= MAX_DPI,
        result_count <= 1024,
        -1_000_000 <= card.left <= 1_000_000,
        -1_000_000 <= card.right <= 1_000_000,
    ensures
        ({
            let width = scaled_spec(SEARCH_PANEL_WIDTH as int, dpi as int);
            let row_h = scaled_spec(SEARCH_ROW_HEIGHT as int, dpi as int);
            let left = div_trunc(card.left + card.right, 2) - div_trunc(width, 2);
            let top = scaled_spec((SEARCH_BAR_HEIGHT + SEARCH_PANEL_GAP) as int, dpi as int);
            &&& l.panel == (Rect {
                left: left as i32,
                top: top as i32,
                right: (left + width) as i32,
                bottom: (top + row_h * (result_count + 1)) as i32,
            })
            &&& l.rows@.len() == result_count + 1
            &&& forall|i: int|
                0 <= i <= result_count ==> #[trigger] l.rows@[i] == (Rect {
                    left: left as i32,
                    top: (top + row_h * i) as i32,
                    right: (left + width) as i32,
                    bottom: (top + row_h * (i + 1)) as i32,
                })
        }),
{
    proof {
        lemma_scaled_bounds(SEARCH_PANEL_WIDTH as int, dpi as int);
        lemma_scaled_bounds(SEARCH_ROW_HEIGHT as int, dpi as int);
        lemma_scaled_bounds((SEARCH_BAR_HEIGHT + SEARCH_PANEL_GAP) as int, dpi as int);
    }
    let width = scaled(SEARCH_PANEL_WIDTH, dpi);
    let row_h = scaled(SEARCH_ROW_HEIGHT, dpi);
    let left: i32 = (card.left + card.right) / 2 - width / 2;
    let top: i32 = scaled(SEARCH_BAR_HEIGHT + SEARCH_PANEL_GAP, dpi);
    let mut rows: Vec<Rect> = Vec::new();
    let n: i32 = result_count as i32;
    let mut i: i32 = 0;
    while i <= n
        invariant
            0 <= i <= n + 1,
            n == result_count,
            n <= 1024,
            0 <= row_h <= 3601,
            0 <= width <= 64001,
            0 <= top <= 3801,
            -1_100_000 <= left <= 1_100_000,
            rows@.len() == i,
            forall|j: int|
                0 <= j < i ==> #[trigger] rows@[j] == (Rect {
                    left: left,
                    top: (top + row_h * j) as i32,
                    right: (left + width) as i32,
                    bottom: (top + row_h * (j + 1)) as i32,
                }),
        decreases n + 1 - i,
    {
        proof {
            lemma_mul_bounds(row_h as int, (i + 1) as int, 3601, 1025);
            lemma_mul_bounds(row_h as int, i as int, 3601, 1025);
        }
        rows.push(Rect { left, top: top + row_h * i, right: left + width, bottom: top + row_h * (i + 1) });
        i += 1;
    }
    proof {
        lemma_mul_bounds(row_h as int, (n + 1) as int, 3601, 1025);
    }
    let panel = Rect { left, top, right: left + width, bottom: top + row_h * (n + 1) };
    SearchLayout { panel, rows }
}

} // verus!
