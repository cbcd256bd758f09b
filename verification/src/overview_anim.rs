//! One animation tick of a monitor's Activities overview: the open/close
//! fade, the carousel slide, the dragged window's pop in/out and the hover
//! glows all advance on one timer. This decides which of them finished,
//! what the fade completed into, and whether the timer keeps running; the
//! front end derives alpha, zoom and the carousel offset from the same
//! start times with its easing curves. Times are milliseconds.

use vstd::prelude::*;
use crate::flyout::transition_done;
use crate::geometry::Rect;
use crate::overview::OverviewPhase;

verus! {

/// Length of the open/close fade.
pub const ANIM_DURATION_MS: u64 = 250;
/// Length of a carousel slide to a page.
pub const CAROUSEL_SNAP_MS: u64 = 220;
/// Length of a dragged window's pop in (pickup) or out (drop).
pub const WINDOW_POP_MS: u64 = 140;
/// Time for a hover glow to ease to full strength.
pub const WINDOW_HOVER_GLOW_MS: u64 = 220;

/// What is in flight on one overview. `fade_started_ms` and `focus_after`
/// matter while the phase is `Opening`/`Closing`; each optional start time
/// is present while that animation (or glow) exists.
#[derive(Clone, Copy, Debug, PartialEq, Eq, Structural)]
pub struct OverviewAnimations {
    pub phase: OverviewPhase,
    pub fade_started_ms: u64,
    /// Window to focus once a closing fade ends (`None`: fall back to the
    /// previously focused window).
    pub focus_after: Option<isize>,
    pub carousel_started_ms: Option<u64>,
    /// Window to close the overview onto once the carousel slide lands.
    pub carousel_close_after: Option<isize>,
    pub pop_started_ms: Option<u64>,
    /// Hover glow of the card under a dragged window.
    pub card_hover_started_ms: Option<u64>,
    /// The window preview under the pointer, and when its glow began.
    pub thumb_hover: Option<ThumbGlow>,
    /// The dock icon under the pointer, and when its glow began.
    pub dock_hover: Option<DockGlow>,
}

/// A hovered window preview and when its glow began.
#[derive(Clone, Copy, Debug, PartialEq, Eq, Structural)]
pub struct ThumbGlow {
    pub hwnd: isize,
    pub started_ms: u64,
}

/// A hovered dock icon and when its glow began.
#[derive(Clone, Copy, Debug, PartialEq, Eq, Structural)]
pub struct DockGlow {
    pub index: usize,
    pub started_ms: u64,
}

/// How a fade ended this tick.
#[derive(Clone, Copy, Debug, PartialEq, Eq, Structural)]
pub enum FadeCompletion {
    /// Opening finished: the overview is idle-open.
    Opened,
    /// Closing finished: hide the overview and focus `focus_after` (or the
    /// previous window).
    Closed { focus_after: Option<isize> },
}

/// What one tick decided.
#[derive(Clone, Copy, Debug, PartialEq, Eq, Structural)]
pub struct TickOutcome {
    pub completion: Option<FadeCompletion>,
    /// The carousel slide landed this tick (its offset is now the target).
    pub carousel_landed: bool,
    /// Close the overview onto this window (the slide just landed).
    pub close_after: Option<isize>,
    /// Whether the animation timer must keep running.
    pub keep_timer: bool,
}

/// Whether an optional animation started at `started` lasting `ms` is
/// still running at `now`.
pub open spec fn running(started: Option<u64>, ms: u64, now: u64) -> bool {
    started matches Some(s) && !transition_done(s, ms, now)
}

/// When the preview glow began, if a preview is hovered.
pub open spec fn thumb_glow_start(h: Option<ThumbGlow>) -> Option<u64> {
    match h {
        Some(g) => Some(g.started_ms),
        None => None,
    }
}

/// When the dock glow began, if a dock icon is hovered.
pub open spec fn dock_glow_start(h: Option<DockGlow>) -> Option<u64> {
    match h {
        Some(g) => Some(g.started_ms),
        None => None,
    }
}

/// The fade is over at `now`.
pub open spec fn fade_done(a: OverviewAnimations, now: u64) -> bool {
    transition_done(a.fade_started_ms, ANIM_DURATION_MS, now)
}

/// The overview's animations after a tick at `now`.
pub open spec fn tick_spec(a: OverviewAnimations, now: u64) -> OverviewAnimations {
    let landed = !running(a.carousel_started_ms, CAROUSEL_SNAP_MS, now)
        && a.carousel_started_ms is Some;
    OverviewAnimations {
        phase: match a.phase {
            OverviewPhase::Opening => if fade_done(a, now) { OverviewPhase::Open } else { OverviewPhase::Opening },
            OverviewPhase::Closing => if fade_done(a, now) { OverviewPhase::Closed } else { OverviewPhase::Closing },
            other => other,
        },
        carousel_started_ms: if landed { None } else { a.carousel_started_ms },
        carousel_close_after: if landed { None } else { a.carousel_close_after },
        pop_started_ms: if running(a.pop_started_ms, WINDOW_POP_MS, now) { a.pop_started_ms } else { None },
        ..a
    }
}

/// What a tick at `now` reports.
pub open spec fn outcome_spec(a: OverviewAnimations, now: u64) -> TickOutcome {
    let landed = !running(a.carousel_started_ms, CAROUSEL_SNAP_MS, now)
        && a.carousel_started_ms is Some;
    let fading = (a.phase == OverviewPhase::Opening || a.phase == OverviewPhase::Closing) && !fade_done(a, now);
    TickOutcome {
        completion: if a.phase == OverviewPhase::Opening && fade_done(a, now) {
            Some(FadeCompletion::Opened)
        } else if a.phase == OverviewPhase::Closing && fade_done(a, now) {
            Some(FadeCompletion::Closed { focus_after: a.focus_after })
        } else {
            None
        },
        carousel_landed: landed,
        close_after: if landed { a.carousel_close_after } else { None },
        keep_timer: fading || (a.carousel_started_ms is Some && !landed) || running(
            a.pop_started_ms,
            WINDOW_POP_MS,
            now,
        ) || running(a.card_hover_started_ms, WINDOW_HOVER_GLOW_MS, now) || running(
            thumb_glow_start(a.thumb_hover),
            WINDOW_HOVER_GLOW_MS,
            now,
        ) || running(dock_glow_start(a.dock_hover), WINDOW_HOVER_GLOW_MS, now),
    }
}

/// Whether an optional animation is still running (see [`running`]).
fn still_running(started: Option<u64>, ms: u64, now: u64) -> (r: bool)
    ensures
        r == running(started, ms, now),
{
    match started {
        Some(s) => !(ms == 0 || now as u128 >= s as u128 + ms as u128),
        None => false,
    }
}

/// When the preview glow began (see [`thumb_glow_start`]).
fn thumb_glow_of(h: Option<ThumbGlow>) -> (r: Option<u64>)
    ensures
        r == thumb_glow_start(h),
{
    match h {
        Some(g) => Some(g.started_ms),
        None => None,
    }
}

/// When the dock glow began (see [`dock_glow_start`]).
fn dock_glow_of(h: Option<DockGlow>) -> (r: Option<u64>)
    ensures
        r == dock_glow_start(h),
{
    match h {
        Some(g) => Some(g.started_ms),
        None => None,
    }
}

/// Advances every animation of one overview to `now`: a finished fade lands
/// in `Open`/`Closed` (reporting it), a landed carousel slide is cleared
/// (handing back its close-onto window), an expired window pop is cleared,
/// and the timer keeps running while anything — fade, slide, pop or an
/// easing hover glow — is still in motion.
pub fn on_animation_tick(anim: &mut OverviewAnimations, now: u64) -> (out: TickOutcome)
    ensures
        *final(anim) == tick_spec(*old(anim), now),
        out == outcome_spec(*old(anim), now),
{
    let fade_over = !still_running(Some(anim.fade_started_ms), ANIM_DURATION_MS, now);
    let fading_phase = anim.phase == OverviewPhase::Opening || anim.phase == OverviewPhase::Closing;
    let fade_running = fading_phase && !fade_over;

    let mut landed = false;
    let mut close_after: Option<isize> = None;
    if anim.carousel_started_ms.is_some() && !still_running(anim.carousel_started_ms, CAROUSEL_SNAP_MS, now) {
        landed = true;
        close_after = anim.carousel_close_after;
        anim.carousel_started_ms = None;
        anim.carousel_close_after = None;
    }
    if !still_running(anim.pop_started_ms, WINDOW_POP_MS, now) {
        anim.pop_started_ms = None;
    }

    let mut completion: Option<FadeCompletion> = None;
    if fade_over {
        if anim.phase == OverviewPhase::Opening {
            anim.phase = OverviewPhase::Open;
            completion = Some(FadeCompletion::Opened);
        } else if anim.phase == OverviewPhase::Closing {
            anim.phase = OverviewPhase::Closed;
            completion = Some(FadeCompletion::Closed { focus_after: anim.focus_after });
        }
    }

    let keep_timer = fade_running || anim.carousel_started_ms.is_some() || anim.pop_started_ms.is_some()
        || still_running(anim.card_hover_started_ms, WINDOW_HOVER_GLOW_MS, now)
        || still_running(thumb_glow_of(anim.thumb_hover), WINDOW_HOVER_GLOW_MS, now)
        || still_running(dock_glow_of(anim.dock_hover), WINDOW_HOVER_GLOW_MS, now);
    TickOutcome { completion, carousel_landed: landed, close_after, keep_timer }
}

/// The animations after opening a closed overview at `now`.
pub open spec fn open_spec(a: OverviewAnimations, now: u64) -> OverviewAnimations {
    if a.phase == OverviewPhase::Closed {
        OverviewAnimations {
            phase: OverviewPhase::Opening,
            fade_started_ms: now,
            carousel_started_ms: None,
            carousel_close_after: None,
            dock_hover: None,
            ..a
        }
    } else {
        a
    }
}

/// Opens a closed overview: the fade-in starts at `now` and any leftover
/// slide or dock hover is dropped. Returns whether it opened (an overview
/// in any other phase is left alone).
pub fn open_overview(anim: &mut OverviewAnimations, now: u64) -> (opened: bool)
    ensures
        opened == (old(anim).phase == OverviewPhase::Closed),
        *final(anim) == open_spec(*old(anim), now),
{
    if anim.phase != OverviewPhase::Closed {
        return false;
    }
    anim.phase = OverviewPhase::Opening;
    anim.fade_started_ms = now;
    anim.carousel_started_ms = None;
    anim.carousel_close_after = None;
    anim.dock_hover = None;
    true
}

/// The animations after asking to close at `now`, focusing `focus_after`.
pub open spec fn close_spec(a: OverviewAnimations, now: u64, focus_after: Option<isize>) -> OverviewAnimations {
    if a.phase == OverviewPhase::Open || a.phase == OverviewPhase::Opening {
        OverviewAnimations {
            phase: OverviewPhase::Closing,
            fade_started_ms: now,
            focus_after,
            carousel_started_ms: None,
            carousel_close_after: None,
            pop_started_ms: None,
            card_hover_started_ms: None,
            thumb_hover: None,
            dock_hover: None,
        }
    } else {
        a
    }
}

/// Starts the fade-out of an open (or still opening) overview at `now`,
/// to focus `focus_after` when it ends; every slide, pop and hover is
/// dropped. Returns whether it started closing (a closed or already
/// closing overview is left alone).
pub fn close_overview(anim: &mut OverviewAnimations, now: u64, focus_after: Option<isize>) -> (closing: bool)
    ensures
        closing == (old(anim).phase == OverviewPhase::Open || old(anim).phase == OverviewPhase::Opening),
        *final(anim) == close_spec(*old(anim), now, focus_after),
{
    if anim.phase != OverviewPhase::Open && anim.phase != OverviewPhase::Opening {
        return false;
    }
    *anim = OverviewAnimations {
        phase: OverviewPhase::Closing,
        fade_started_ms: now,
        focus_after,
        carousel_started_ms: None,
        carousel_close_after: None,
        pop_started_ms: None,
        card_hover_started_ms: None,
        thumb_hover: None,
        dock_hover: None,
    };
    true
}

/// Starts a carousel slide at `now` in an idle-open overview, to close onto
/// `close_after` when it lands. A slide to where the carousel already is
/// (`already_there`) with nothing to close onto is dropped instead.
/// Returns whether a slide is now running.
pub fn start_slide(anim: &mut OverviewAnimations, now: u64, already_there: bool, close_after: Option<isize>) -> (sliding: bool)
    ensures
        old(anim).phase != OverviewPhase::Open ==> !sliding && *final(anim) == *old(anim),
        old(anim).phase == OverviewPhase::Open && already_there && close_after is None ==> !sliding
            && *final(anim) == (OverviewAnimations { carousel_started_ms: None, ..*old(anim) }),
        old(anim).phase == OverviewPhase::Open && !(already_there && close_after is None) ==> sliding
            && *final(anim) == (OverviewAnimations {
            carousel_started_ms: Some(now),
            carousel_close_after: close_after,
            ..*old(anim)
        }),
{
    if anim.phase != OverviewPhase::Open {
        return false;
    }
    if already_there && close_after.is_none() {
        anim.carousel_started_ms = None;
        return false;
    }
    anim.carousel_started_ms = Some(now);
    anim.carousel_close_after = close_after;
    true
}

/// Opening, then closing onto a window: the fade-in completes into an
/// idle-open overview one fade length after it started, and the fade-out
/// completes into a closed overview that hands focus to that window.
pub proof fn lemma_open_then_close(a: OverviewAnimations, t_open: u64, t_close: u64, focus: Option<isize>)
    requires
        a.phase == OverviewPhase::Closed,
        t_open + ANIM_DURATION_MS <= t_close,
    ensures
        ({
            let opened = open_spec(a, t_open);
            let settled = tick_spec(opened, (t_open + ANIM_DURATION_MS) as u64);
            let closing = close_spec(settled, t_close, focus);
            let done = (t_close + ANIM_DURATION_MS) as u64;
            &&& outcome_spec(opened, (t_open + ANIM_DURATION_MS) as u64).completion == Some(
                FadeCompletion::Opened,
            )
            &&& settled.phase == OverviewPhase::Open
            &&& closing.phase == OverviewPhase::Closing
            &&& t_close + ANIM_DURATION_MS <= u64::MAX ==> tick_spec(closing, done).phase == OverviewPhase::Closed
                && outcome_spec(closing, done).completion == Some(FadeCompletion::Closed { focus_after: focus })
                && !outcome_spec(closing, done).keep_timer
        }),
{
}

/// Whether dock icon `i` is the first whose slot holds `(x, y)`.
pub open spec fn first_slot_hit(slots: Seq<Rect>, x: int, y: int, i: int) -> bool {
    0 <= i < slots.len() && slots[i].has_point(x, y) && forall|j: int| 0 <= j < i ==> !slots[j].has_point(x, y)
}

/// The first dock slot holding `(x, y)`.
fn slot_at(slots: &[Rect], x: i32, y: i32) -> (r: Option<usize>)
    ensures
        r matches Some(i) ==> first_slot_hit(slots@, x as int, y as int, i as int),
        r is None ==> forall|j: int| 0 <= j < slots@.len() ==> !slots@[j].has_point(x as int, y as int),
{
    let mut i: usize = 0;
    while i < slots.len()
        invariant
            i <= slots@.len(),
            forall|j: int| 0 <= j < i ==> !slots@[j].has_point(x as int, y as int),
        decreases slots.len() - i,
    {
        if slots[i].contains(x, y) {
            return Some(i);
        }
        i += 1;
    }
    None
}

/// Pointer movement over an idle-open overview (no drag in progress):
/// the dock icon under `(x, y)` wins over the window preview `thumb`
/// under it; a glow restarts at `now` whenever what is hovered changes.
/// Returns whether anything changed (repaint, and run the timer for the
/// glow).
pub fn on_overview_hover(
    anim: &mut OverviewAnimations,
    dragging: bool,
    dock_slots: &[Rect],
    thumb: Option<isize>,
    x: i32,
    y: i32,
    now: u64,
) -> (changed: bool)
    ensures
        (dragging || old(anim).phase != OverviewPhase::Open) ==> !changed && *final(anim) == *old(anim),
        !(dragging || old(anim).phase != OverviewPhase::Open) ==> ({
            let on_dock = exists|i: int| first_slot_hit(dock_slots@, x as int, y as int, i);
            let dock_id: Option<usize> = if on_dock {
                Some((choose|i: int| first_slot_hit(dock_slots@, x as int, y as int, i)) as usize)
            } else {
                None
            };
            let thumb_id = if on_dock { None } else { thumb };
            let old_thumb: Option<isize> = match old(anim).thumb_hover {
                Some(g) => Some(g.hwnd),
                None => None,
            };
            let old_dock: Option<usize> = match old(anim).dock_hover {
                Some(g) => Some(g.index),
                None => None,
            };
            &&& final(anim).thumb_hover == (if old_thumb == thumb_id {
                old(anim).thumb_hover
            } else {
                match thumb_id {
                    Some(h) => Some(ThumbGlow { hwnd: h, started_ms: now }),
                    None => None,
                }
            })
            &&& final(anim).dock_hover == (if old_dock == dock_id {
                old(anim).dock_hover
            } else {
                match dock_id {
                    Some(i) => Some(DockGlow { index: i, started_ms: now }),
                    None => None,
                }
            })
            &&& changed == (old_thumb != thumb_id || old_dock != dock_id)
            &&& *final(anim) == (OverviewAnimations {
                thumb_hover: final(anim).thumb_hover,
                dock_hover: final(anim).dock_hover,
                ..*old(anim)
            })
        }),
{
    if dragging || anim.phase != OverviewPhase::Open {
        return false;
    }
    let dock_hit = slot_at(dock_slots, x, y);
    proof {
        if let Some(i) = dock_hit {
            let c = choose|k: int| first_slot_hit(dock_slots@, x as int, y as int, k);
            assert(first_slot_hit(dock_slots@, x as int, y as int, i as int));
            if c < i {
                assert(!dock_slots@[c].has_point(x as int, y as int));
            }
            if c > i {
                assert(!dock_slots@[i as int].has_point(x as int, y as int));
            }
        }
    }
    let hovered: Option<isize> = if dock_hit.is_some() { None } else { thumb };
    let old_thumb: Option<isize> = match anim.thumb_hover {
        Some(g) => Some(g.hwnd),
        None => None,
    };
    let old_dock: Option<usize> = match anim.dock_hover {
        Some(g) => Some(g.index),
        None => None,
    };
    let mut changed = false;
    if old_thumb != hovered {
        anim.thumb_hover = match hovered {
            Some(h) => Some(ThumbGlow { hwnd: h, started_ms: now }),
            None => None,
        };
        changed = true;
    }
    if old_dock != dock_hit {
        anim.dock_hover = match dock_hit {
            Some(i) => Some(DockGlow { index: i, started_ms: now }),
            None => None,
        };
        changed = true;
    }
    changed
}

/// Every animation ends: a tick at or after the end of everything that was
/// started leaves a resting phase, no slide or pop, and stops the timer.
pub proof fn lemma_tick_settles(a: OverviewAnimations, now: u64)
    requires
        now >= a.fade_started_ms + ANIM_DURATION_MS,
        a.carousel_started_ms matches Some(s) ==> now >= s + CAROUSEL_SNAP_MS,
        a.pop_started_ms matches Some(s) ==> now >= s + WINDOW_POP_MS,
        a.card_hover_started_ms matches Some(s) ==> now >= s + WINDOW_HOVER_GLOW_MS,
        thumb_glow_start(a.thumb_hover) matches Some(s) ==> now >= s + WINDOW_HOVER_GLOW_MS,
        dock_glow_start(a.dock_hover) matches Some(s) ==> now >= s + WINDOW_HOVER_GLOW_MS,
    ensures
        ({
            let b = tick_spec(a, now);
            let out = outcome_spec(a, now);
            &&& b.phase == OverviewPhase::Open || b.phase == OverviewPhase::Closed
            &&& b.carousel_started_ms is None
            &&& b.pop_started_ms is None
            &&& !out.keep_timer
            &&& a.phase == OverviewPhase::Closing ==> out.completion == Some(
                FadeCompletion::Closed { focus_after: a.focus_after },
            )
            &&& a.phase == OverviewPhase::Opening ==> out.completion == Some(FadeCompletion::Opened)
        }),
{
}

/// Before the fade's end a fading overview keeps fading and keeps the timer
/// running; it completes nothing.
pub proof fn lemma_tick_mid_fade(a: OverviewAnimations, now: u64)
    requires
        a.phase == OverviewPhase::Opening || a.phase == OverviewPhase::Closing,
        now < a.fade_started_ms + ANIM_DURATION_MS,
    ensures
        tick_spec(a, now).phase == a.phase,
        outcome_spec(a, now).completion is None,
        outcome_spec(a, now).keep_timer,
{
}

/// The window to focus when a closing overview finishes: the requested one,
/// else the window that was focused before the overview opened, provided it
/// exists, is not the overview itself, and lives on the workspace being
/// closed onto; otherwise none (focus goes to the desktop).
pub fn close_focus_target(
    focus_after: Option<isize>,
    previous_foreground: isize,
    overview_hwnd: isize,
    previous_on_current_workspace: bool,
) -> (r: Option<isize>)
    ensures
        focus_after is Some ==> r == focus_after,
        focus_after is None ==> r == (if previous_foreground != 0 && previous_foreground != overview_hwnd
            && previous_on_current_workspace {
            Some(previous_foreground)
        } else {
            None
        }),
{
    match focus_after {
        Some(h) => Some(h),
        None => {
            if previous_foreground != 0 && previous_foreground != overview_hwnd && previous_on_current_workspace {
                Some(previous_foreground)
            } else {
                None
            }
        },
    }
}

} // verus!
