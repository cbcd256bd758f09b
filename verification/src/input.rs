//! Global input decisions: the Windows key as the Activities key (a tap
//! toggles the overview; holding it while dragging moves or resizes the
//! window under the cursor), the move/resize geometry, and the
//! edge-triggered top-left hot corner.

use vstd::prelude::*;
use crate::geometry::{div_trunc, Rect};
use crate::monitors::MonitorInfo;

verus! {

/// Virtual-key codes of the two Windows keys.
pub const VK_LWIN: u32 = 0x5B;
pub const VK_RWIN: u32 = 0x5C;
/// A resize never shrinks a window below this (pixels).
pub const MIN_WINDOW_SIZE: i32 = 120;
/// Size of the hot-corner zone (pixels).
pub const HOTCORNER_ZONE: i32 = 3;

/// The kind of keyboard message the hook saw.
#[derive(Clone, Copy, Debug, PartialEq, Eq, Structural)]
pub enum KeyMsg {
    Down,
    Up,
    Other,
}

/// What the keyboard hook does with an event.
#[derive(Clone, Copy, Debug, PartialEq, Eq, Structural)]
pub enum KeyHookResult {
    /// Not ours: pass it on.
    Pass,
    /// Swallow it (Windows never sees the Windows key, so no Start menu).
    Swallow,
    /// Swallow it and toggle the overview (a plain tap ended).
    SwallowAndToggleOverview,
}

/// Whether the Windows key is held, and whether the hold was used for a drag.
#[derive(Clone, Copy, Debug, PartialEq, Eq, Structural)]
pub struct WinKeyState {
    pub held: bool,
    pub used: bool,
}

/// The state and hook result after a keyboard event.
pub open spec fn key_event_spec(s: WinKeyState, vk: u32, msg: KeyMsg) -> (WinKeyState, KeyHookResult) {
    if vk != VK_LWIN && vk != VK_RWIN {
        (s, KeyHookResult::Pass)
    } else {
        match msg {
            KeyMsg::Down => (if s.held { s } else { WinKeyState { held: true, used: false } }, KeyHookResult::Swallow),
            KeyMsg::Up => (
                WinKeyState { held: false, used: s.used },
                if s.used { KeyHookResult::Swallow } else { KeyHookResult::SwallowAndToggleOverview },
            ),
            KeyMsg::Other => (s, KeyHookResult::Pass),
        }
    }
}

impl WinKeyState {
    pub fn new() -> (r: Self)
        ensures
            !r.held && !r.used,
    {
        WinKeyState { held: false, used: false }
    }

    /// The low-level keyboard hook: Windows-key presses are swallowed (a
    /// fresh press starts an unused hold; auto-repeat changes nothing),
    /// and a release toggles the overview unless the hold was used.
    pub fn on_key(&mut self, vk: u32, msg: KeyMsg) -> (r: KeyHookResult)
        ensures
            (*final(self), r) == key_event_spec(*old(self), vk, msg),
    {
        if vk != VK_LWIN && vk != VK_RWIN {
            return KeyHookResult::Pass;
        }
        match msg {
            KeyMsg::Down => {
                if !self.held {
                    self.held = true;
                    self.used = false;
                }
                KeyHookResult::Swallow
            },
            KeyMsg::Up => {
                self.held = false;
                if self.used {
                    KeyHookResult::Swallow
                } else {
                    KeyHookResult::SwallowAndToggleOverview
                }
            },
            KeyMsg::Other => KeyHookResult::Pass,
        }
    }

    /// A drag started during the hold: its release must not toggle.
    pub fn mark_used(&mut self)
        ensures
            final(self).used,
            final(self).held == old(self).held,
    {
        self.used = true;
    }
}

/// A tap (press, any auto-repeat, release) toggles the overview once; a
/// hold used for a drag never does.
pub proof fn lemma_win_key_tap(s: WinKeyState, vk: u32)
    requires
        vk == VK_LWIN || vk == VK_RWIN,
        !s.held,
    ensures
        ({
            let (a, _) = key_event_spec(s, vk, KeyMsg::Down);
            let (b, _) = key_event_spec(a, vk, KeyMsg::Down);
            let (c, r) = key_event_spec(b, vk, KeyMsg::Up);
            r == KeyHookResult::SwallowAndToggleOverview && !c.held
        }),
        ({
            let (a, _) = key_event_spec(s, vk, KeyMsg::Down);
            let b = WinKeyState { used: true, ..a };
            let (c, r) = key_event_spec(b, vk, KeyMsg::Up);
            r == KeyHookResult::Swallow && !c.held
        }),
{
}

/// Move, or resize with the given edges following the cursor.
#[derive(Clone, Copy, Debug, PartialEq, Eq, Structural)]
pub enum DragMode {
    Move,
    Resize { grow_right: bool, grow_bottom: bool },
}

/// The drag mode for a press at `(px, py)` on a window at `rect`: a
/// resize grows the edges of the quadrant the press is in.
pub fn drag_mode_for(rect: Rect, px: i32, py: i32, is_resize: bool) -> (m: DragMode)
    ensures
        !is_resize ==> m == DragMode::Move,
        is_resize ==> m == (DragMode::Resize {
            grow_right: px >= div_trunc(rect.left + rect.right, 2),
            grow_bottom: py >= div_trunc(rect.top + rect.bottom, 2),
        }),
{
    if !is_resize {
        return DragMode::Move;
    }
    let mid_x: i64 = ((rect.left as i64) + (rect.right as i64)) / 2;
    let mid_y: i64 = ((rect.top as i64) + (rect.bottom as i64)) / 2;
    DragMode::Resize { grow_right: (px as i64) >= mid_x, grow_bottom: (py as i64) >= mid_y }
}

/// Coordinates small enough for drag arithmetic.
pub open spec fn drag_coord_ok(v: int) -> bool {
    -100_000_000 <= v <= 100_000_000
}

/// The window's new `(x, y, width, height)` with the cursor at
/// `(cx, cy)`, for a drag that started with the cursor at `(sx, sy)` on a
/// window at `start`.
pub open spec fn drag_target_spec(mode: DragMode, start: Rect, sx: int, sy: int, cx: int, cy: int) -> (int, int, int, int) {
    let dx = cx - sx;
    let dy = cy - sy;
    match mode {
        DragMode::Move => (start.left + dx, start.top + dy, start.right - start.left, start.bottom - start.top),
        DragMode::Resize { grow_right, grow_bottom } => {
            let (l, r) = if grow_right {
                let r = if start.right + dx > start.left + MIN_WINDOW_SIZE { start.right + dx } else { start.left
                    + MIN_WINDOW_SIZE };
                (start.left as int, r)
            } else {
                let l = if start.left + dx < start.right - MIN_WINDOW_SIZE { start.left + dx } else { start.right
                    - MIN_WINDOW_SIZE };
                (l, start.right as int)
            };
            let (t, b) = if grow_bottom {
                let b = if start.bottom + dy > start.top + MIN_WINDOW_SIZE { start.bottom + dy } else { start.top
                    + MIN_WINDOW_SIZE };
                (start.top as int, b)
            } else {
                let t = if start.top + dy < start.bottom - MIN_WINDOW_SIZE { start.top + dy } else { start.bottom
                    - MIN_WINDOW_SIZE };
                (t, start.bottom as int)
            };
            (l, t, r - l, b - t)
        },
    }
}

/// Applies an in-progress move or resize for the current cursor position.
pub fn drag_target(mode: DragMode, start: Rect, sx: i32, sy: i32, cx: i32, cy: i32) -> (r: (i32, i32, i32, i32))
    requires
        drag_coord_ok(start.left as int),
        drag_coord_ok(start.top as int),
        drag_coord_ok(start.right as int),
        drag_coord_ok(start.bottom as int),
        drag_coord_ok(sx as int),
        drag_coord_ok(sy as int),
        drag_coord_ok(cx as int),
        drag_coord_ok(cy as int),
    ensures
        (r.0 as int, r.1 as int, r.2 as int, r.3 as int) == drag_target_spec(
            mode,
            start,
            sx as int,
            sy as int,
            cx as int,
            cy as int,
        ),
        mode == DragMode::Move ==> r.0 == start.left + (cx - sx) && r.1 == start.top + (cy - sy) && r.2
            == start.right - start.left && r.3 == start.bottom - start.top,
        mode matches DragMode::Resize { grow_right, .. } && !grow_right ==> r.0 + r.2 == start.right && (
        if start.left + (cx - sx) <= start.right - MIN_WINDOW_SIZE {
            r.0 == start.left + (cx - sx)
        } else {
            r.0 == start.right - MIN_WINDOW_SIZE
        }),
        mode matches DragMode::Resize { grow_right, .. } && grow_right ==> r.0 == start.left && (
        if start.right + (cx - sx) >= start.left + MIN_WINDOW_SIZE {
            r.0 + r.2 == start.right + (cx - sx)
        } else {
            r.0 + r.2 == start.left + MIN_WINDOW_SIZE
        }),
        mode matches DragMode::Resize { grow_bottom, .. } && !grow_bottom ==> r.1 + r.3 == start.bottom && (
        if start.top + (cy - sy) <= start.bottom - MIN_WINDOW_SIZE {
            r.1 == start.top + (cy - sy)
        } else {
            r.1 == start.bottom - MIN_WINDOW_SIZE
        }),
        mode matches DragMode::Resize { grow_bottom, .. } && grow_bottom ==> r.1 == start.top && (
        if start.bottom + (cy - sy) >= start.top + MIN_WINDOW_SIZE {
            r.1 + r.3 == start.bottom + (cy - sy)
        } else {
            r.1 + r.3 == start.top + MIN_WINDOW_SIZE
        }),
{
    let dx = cx - sx;
    let dy = cy - sy;
    match mode {
        DragMode::Move => (start.left + dx, start.top + dy, start.right - start.left, start.bottom - start.top),
        DragMode::Resize { grow_right, grow_bottom } => {
            let (l, r) = if grow_right {
                let r = if start.right + dx > start.left + MIN_WINDOW_SIZE { start.right + dx } else { start.left
                    + MIN_WINDOW_SIZE };
                (start.left, r)
            } else {
                let l = if start.left + dx < start.right - MIN_WINDOW_SIZE { start.left + dx } else { start.right
                    - MIN_WINDOW_SIZE };
                (l, start.right)
            };
            let (t, b) = if grow_bottom {
                let b = if start.bottom + dy > start.top + MIN_WINDOW_SIZE { start.bottom + dy } else { start.top
                    + MIN_WINDOW_SIZE };
                (start.top, b)
            } else {
                let t = if start.top + dy < start.bottom - MIN_WINDOW_SIZE { start.top + dy } else { start.bottom
                    - MIN_WINDOW_SIZE };
                (t, start.bottom)
            };
            (l, t, r - l, b - t)
        },
    }
}

/// A move keeps the window's size; a resize never makes it smaller than
/// `MIN_WINDOW_SIZE` either way and keeps the edges that do not follow the
/// cursor where they were.
pub proof fn lemma_drag_respects_min_size(mode: DragMode, start: Rect, sx: int, sy: int, cx: int, cy: int)
    ensures
        ({
            let (x, y, w, h) = drag_target_spec(mode, start, sx, sy, cx, cy);
            &&& mode == DragMode::Move ==> w == start.right - start.left && h == start.bottom - start.top
            &&& mode is Resize ==> w >= MIN_WINDOW_SIZE && h >= MIN_WINDOW_SIZE
            &&& (mode matches DragMode::Resize { grow_right, .. } && grow_right) ==> x == start.left
            &&& (mode matches DragMode::Resize { grow_right, .. } && !grow_right) ==> x + w == start.right
            &&& (mode matches DragMode::Resize { grow_bottom, .. } && grow_bottom) ==> y == start.top
            &&& (mode matches DragMode::Resize { grow_bottom, .. } && !grow_bottom) ==> y + h == start.bottom
        }),
{
}

/// Each edge follows the cursor on its own axis: horizontal travel moves
/// only the left/right edges (and the width), vertical travel only the
/// top/bottom edges (and the height), so two cursor positions with the
/// same `cx` give the same horizontal placement, and two with the same
/// `cy` the same vertical one. An edge that follows the cursor moves by
/// exactly the cursor's travel along its axis until the window would get
/// narrower (shorter) than `MIN_WINDOW_SIZE`.
pub proof fn lemma_drag_edges_follow_cursor(
    mode: DragMode,
    start: Rect,
    sx: int,
    sy: int,
    cx: int,
    cy: int,
    cx2: int,
    cy2: int,
)
    ensures
        ({
            let (x, y, w, h) = drag_target_spec(mode, start, sx, sy, cx, cy);
            let (x2, y2, w2, h2) = drag_target_spec(mode, start, sx, sy, cx, cy2);
            let (x3, y3, w3, h3) = drag_target_spec(mode, start, sx, sy, cx2, cy);
            &&& x2 == x && w2 == w
            &&& y3 == y && h3 == h
            &&& mode == DragMode::Move ==> x == start.left + (cx - sx) && y == start.top + (cy - sy)
            &&& (mode matches DragMode::Resize { grow_right, .. } && !grow_right && start.left + (cx - sx)
                <= start.right - MIN_WINDOW_SIZE) ==> x == start.left + (cx - sx) && x + w == start.right
            &&& (mode matches DragMode::Resize { grow_right, .. } && grow_right && start.right + (cx - sx)
                >= start.left + MIN_WINDOW_SIZE) ==> x == start.left && x + w == start.right + (cx - sx)
            &&& (mode matches DragMode::Resize { grow_bottom, .. } && !grow_bottom && start.top + (cy - sy)
                <= start.bottom - MIN_WINDOW_SIZE) ==> y == start.top + (cy - sy) && y + h == start.bottom
            &&& (mode matches DragMode::Resize { grow_bottom, .. } && grow_bottom && start.bottom + (cy - sy)
                >= start.top + MIN_WINDOW_SIZE) ==> y == start.top && y + h == start.bottom + (cy - sy)
        }),
{
}

/// Whether monitor `i` is the first whose top-left hot-corner zone holds `(x, y)`.
pub open spec fn is_first_corner(ms: Seq<MonitorInfo>, x: int, y: int, i: int) -> bool {
    &&& 0 <= i < ms.len()
    &&& in_corner_zone(ms[i].rect, x, y)
    &&& forall|j: int| 0 <= j < i ==> !in_corner_zone(ms[j].rect, x, y)
}

/// Whether `(x, y)` is within the hot-corner zone at `r`'s top-left.
pub open spec fn in_corner_zone(r: Rect, x: int, y: int) -> bool {
    r.left <= x < r.left + HOTCORNER_ZONE && r.top <= y < r.top + HOTCORNER_ZONE
}

/// The monitor whose top-left corner the cursor at `(x, y)` sits in.
pub fn hot_corner_monitor(monitors: &[MonitorInfo], x: i32, y: i32) -> (r: Option<usize>)
    ensures
        r matches Some(i) ==> is_first_corner(monitors@, x as int, y as int, i as int),
        r is None ==> forall|j: int| 0 <= j < monitors@.len() ==> !in_corner_zone(monitors@[j].rect, x as int, y as int),
{
    let mut i: usize = 0;
    while i < monitors.len()
        invariant
            i <= monitors@.len(),
            forall|j: int| 0 <= j < i ==> !in_corner_zone(monitors@[j].rect, x as int, y as int),
        decreases monitors.len() - i,
    {
        let r = monitors[i].rect;
        if (x as i64) >= (r.left as i64) && (x as i64) < (r.left as i64) + (HOTCORNER_ZONE as i64)
            && (y as i64) >= (r.top as i64) && (y as i64) < (r.top as i64) + (HOTCORNER_ZONE as i64) {
            return Some(i);
        }
        i += 1;
    }
    None
}

/// Edge-triggered hot corner: remembers whether the cursor was in a corner.
#[derive(Clone, Copy, Debug, PartialEq, Eq, Structural)]
pub struct HotCornerState {
    pub in_hot_corner: bool,
}

impl HotCornerState {
    pub fn new() -> (r: Self)
        ensures
            !r.in_hot_corner,
    {
        HotCornerState { in_hot_corner: false }
    }

    /// One poll: fires (open the overview) only when the cursor has just
    /// arrived in a corner, so resting there does not reopen it.
    pub fn check_hot_corners(&mut self, in_corner: bool) -> (fire: bool)
        ensures
            fire == (in_corner && !old(self).in_hot_corner),
            final(self).in_hot_corner == in_corner,
    {
        let was = self.in_hot_corner;
        self.in_hot_corner = in_corner;
        in_corner && !was
    }
}

} // verus!
