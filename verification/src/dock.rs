//! The Activities overview's dock: alignment and layout of the icon bar,
//! running-indicator dots, cycling through an app's windows, the pinned
//! list, and where a dragged pin lands.

use vstd::prelude::*;
use crate::geometry::{
    div_trunc, fits_i32, lemma_mul_bounds, lemma_scaled_bounds, scaled, scaled_spec, Rect, MAX_DPI,
};
use crate::text::str_eq;
use crate::dock_pins::{json_path_list, json_pretty_path_list, reorder, reorder_spec, string_views};

verus! {

/// Above this many open windows an entry stops adding running dots.
pub const DOCK_MAX_RUNNING_DOTS: usize = 4;
/// Gap between running-indicator dots (96-DPI).
pub const DOCK_RUNNING_DOT_GAP: i32 = 4;
/// Running-indicator dot radius (96-DPI).
pub const DOCK_RUNNING_DOT_RADIUS: i32 = 3;
/// Hard cap on dock entries.
pub const DOCK_MAX_APPS: usize = 14;

/// The left edge of content `content_w` wide inside the span
/// `[left, right)`, for an alignment string.
pub open spec fn anchor_x_spec(left: int, right: int, content_w: int, alignment: Seq<char>) -> int {
    if alignment == "left"@ {
        left
    } else if alignment == "right"@ {
        if right - content_w >= left { right - content_w } else { left }
    } else {
        div_trunc(left + right, 2) - div_trunc(content_w, 2)
    }
}

/// The dock bar's left edge: "left"/"right" hug the work area's edge
/// (never past its left edge); anything else, including unknown strings,
/// centers the content.
pub fn anchor_x(work_area_left: i32, work_area_right: i32, content_w: i32, alignment: &str) -> (r: i32)
    requires
        fits_i32(work_area_left + work_area_right),
        fits_i32(work_area_right - content_w),
        fits_i32(div_trunc(work_area_left + work_area_right, 2) - div_trunc(content_w as int, 2)),
    ensures
        r == anchor_x_spec(work_area_left as int, work_area_right as int, content_w as int, alignment@),
{
    proof {
        reveal_strlit("left");
        reveal_strlit("right");
    }
    if str_eq(alignment, "left") {
        work_area_left
    } else if str_eq(alignment, "right") {
        let x = work_area_right - content_w;
        if x >= work_area_left { x } else { work_area_left }
    } else {
        (work_area_left + work_area_right) / 2 - content_w / 2
    }
}

/// Running-indicator dot radius at `dpi`.
pub fn dock_running_dot_radius(dpi: u32) -> (r: i32)
    requires
        dpi <= 1_000_000,
    ensures
        r == scaled_spec(DOCK_RUNNING_DOT_RADIUS as int, dpi as int),
{
    scaled(DOCK_RUNNING_DOT_RADIUS, dpi)
}

/// The `i`-th running dot under `slot` when `n` dots are shown.
pub open spec fn running_dot_spec(slot: Rect, n: int, radius: int, gap: int, i: int) -> Rect {
    let diameter = radius * 2;
    let total_w = n * diameter + (if n - 1 > 0 { n - 1 } else { 0 }) * gap;
    let cx = div_trunc(slot.left + slot.right, 2);
    let start_x = cx - div_trunc(total_w, 2);
    let dot_y = slot.bottom + radius + 2;
    let dx = start_x + i * (diameter + gap);
    Rect {
        left: dx as i32,
        top: (dot_y - radius) as i32,
        right: (dx + diameter) as i32,
        bottom: (dot_y + radius) as i32,
    }
}

/// A coordinate or size small enough that the dock's arithmetic cannot overflow.
pub open spec fn small(v: int) -> bool {
    -1_000_000 <= v <= 1_000_000
}

/// Rects for up to `DOCK_MAX_RUNNING_DOTS` dots under `slot`, one per open
/// window, evenly spaced and centered under the icon.
pub fn running_dot_rects(slot: Rect, window_count: usize, radius: i32, gap: i32) -> (dots: Vec<Rect>)
    requires
        small(slot.left as int),
        small(slot.right as int),
        small(slot.bottom as int),
        0 <= radius <= 1_000_000,
        0 <= gap <= 1_000_000,
    ensures
        dots@.len() == (if window_count < DOCK_MAX_RUNNING_DOTS { window_count as int } else {
            DOCK_MAX_RUNNING_DOTS as int
        }),
        forall|i: int|
            0 <= i < dots@.len() ==> dots@[i] == running_dot_spec(
                slot,
                dots@.len() as int,
                radius as int,
                gap as int,
                i,
            ),
{
    let n: usize = if window_count < DOCK_MAX_RUNNING_DOTS { window_count } else { DOCK_MAX_RUNNING_DOTS };
    let mut dots: Vec<Rect> = Vec::new();
    if n == 0 {
        return dots;
    }
    let ni: i32 = n as i32;
    let diameter: i32 = radius * 2;
    let gaps: i32 = if ni - 1 > 0 { ni - 1 } else { 0 };
    assert(0 <= ni * diameter <= 8_000_000) by (nonlinear_arith)
        requires
            1 <= ni <= 4,
            0 <= diameter <= 2_000_000,
    ;
    assert(0 <= gaps * gap <= 3_000_000) by (nonlinear_arith)
        requires
            0 <= gaps <= 3,
            0 <= gap <= 1_000_000,
    ;
    let total_w: i32 = ni * diameter + gaps * gap;
    let cx: i32 = (slot.left + slot.right) / 2;
    let start_x: i32 = cx - total_w / 2;
    let dot_y: i32 = slot.bottom + radius + 2;
    let mut i: i32 = 0;
    while i < ni
        invariant
            1 <= ni <= 4,
            ni == n,
            0 <= i <= ni,
            dots@.len() == i,
            diameter == radius * 2,
            0 <= radius <= 1_000_000,
            0 <= gap <= 1_000_000,
            total_w == ni * diameter + gaps * gap,
            gaps == (if ni - 1 > 0 { ni - 1 } else { 0 }),
            cx == div_trunc(slot.left + slot.right, 2),
            start_x == cx - div_trunc(total_w as int, 2),
            dot_y == slot.bottom + radius + 2,
            small(slot.left as int),
            small(slot.right as int),
            small(slot.bottom as int),
            forall|j: int|
                0 <= j < i ==> dots@[j] == running_dot_spec(slot, ni as int, radius as int, gap as int, j),
        decreases ni - i,
    {
        assert(0 <= i * (diameter + gap) <= 3 * 3_000_000) by (nonlinear_arith)
            requires
                0 <= i <= 3,
                0 <= diameter + gap <= 3_000_000,
        ;
        let dx: i32 = start_x + i * (diameter + gap);
        dots.push(Rect { left: dx, top: dot_y - radius, right: dx + diameter, bottom: dot_y + radius });
        i += 1;
    }
    dots
}

/// The window `next_window` picks: past the last-focused one, wrapping,
/// or the first when there is no (longer a) last-focused window.
pub open spec fn next_window_spec(windows: Seq<isize>, last: Option<isize>) -> Option<isize> {
    if windows.len() == 0 {
        None
    } else {
        match last {
            None => Some(windows[0]),
            Some(l) => if exists|i: int| 0 <= i < windows.len() && windows[i] == l {
                let i = choose|i: int|
                    0 <= i < windows.len() && windows[i] == l && forall|j: int|
                        0 <= j < i ==> windows[j] != l;
                Some(windows[(i + 1) % (windows.len() as int)])
            } else {
                Some(windows[0])
            },
        }
    }
}

/// The window to focus next among an entry's `windows`, cycling past
/// `last_focused` and wrapping; the first one when `last_focused` is
/// `None` or no longer present; `None` when there are no windows.
pub fn next_window(windows: &[isize], last_focused: Option<isize>) -> (r: Option<isize>)
    ensures
        r == next_window_spec(windows@, last_focused),
{
    if windows.len() == 0 {
        return None;
    }
    let last = match last_focused {
        None => { return Some(windows[0]); },
        Some(l) => l,
    };
    let mut i: usize = 0;
    while i < windows.len()
        invariant
            i <= windows@.len(),
            windows@.len() > 0,
            last_focused == Some(last),
            forall|j: int| 0 <= j < i ==> windows@[j] != last,
        decreases windows.len() - i,
    {
        if windows[i] == last {
            let next = if i + 1 == windows.len() { 0 } else { i + 1 };
            assert(next as int == (i as int + 1) % (windows@.len() as int)) by (nonlinear_arith)
                requires
                    0 <= i < windows@.len(),
                    next == (if i + 1 == windows@.len() { 0 } else { i + 1 }),
            ;
            proof {
                let k = choose|k: int|
                    0 <= k < windows@.len() && windows@[k] == last && forall|j: int|
                        0 <= j < k ==> windows@[j] != last;
                assert(0 <= i < windows@.len() && windows@[i as int] == last);
                if k < i {
                    assert(windows@[k] != last);
                }
                if k > i {
                    assert(windows@[i as int] != last);
                }
                assert(k == i);
            }
            return Some(windows[next]);
        }
        i += 1;
    }
    Some(windows[0])
}

/// Cycling: when `last_focused` is the `i`-th of distinct windows, the next
/// one is the `(i + 1)`-th, wrapping to the first after the last; so
/// repeated activations visit every window in turn.
pub proof fn lemma_next_window_cycles(windows: Seq<isize>, i: int)
    requires
        0 <= i < windows.len(),
        windows.no_duplicates(),
    ensures
        next_window_spec(windows, Some(windows[i])) == Some(windows[(i + 1) % (windows.len() as int)]),
{
    let l = windows[i];
    assert(forall|j: int| 0 <= j < i ==> windows[j] != l);
    let k = choose|k: int|
        0 <= k < windows.len() && windows[k] == l && forall|j: int| 0 <= j < k ==> windows[j] != l;
    assert(k == i);
}

/// 96-DPI dock bar metrics.
pub const DOCK_ICON_GAP: i32 = 14;
pub const DOCK_PADDING_X: i32 = 14;
pub const DOCK_PADDING_Y: i32 = 10;
pub const DOCK_MARGIN_BOTTOM: i32 = 8;
pub const DOCK_DIVIDER_GAP: i32 = 10;
pub const DOCK_DIVIDER_WIDTH: i32 = 2;
/// The overview's bottom card margin, the band the dock sits in (96-DPI).
pub const CARD_MARGIN_BOTTOM: i32 = 120;

/// The dock bar, each icon's slot within it, and the divider between the
/// pinned section and the running-but-unpinned section (when both exist).
pub struct DockLayout {
    pub bar: Rect,
    pub slots: Vec<Rect>,
    pub divider: Option<Rect>,
}

/// Whether the divider is drawn: some entries are pinned and some are not.
pub open spec fn dock_has_divider(pinned: int, total: int) -> bool {
    pinned > 0 && pinned < total
}

/// Number of slots: at least one, so an empty dock still has a shape.
pub open spec fn dock_count(total: int) -> int {
    if total > 1 { total } else { 1 }
}

/// Extra width the divider and its two gaps add.
pub open spec fn dock_divider_extra(dpi: int, has_divider: bool) -> int {
    if has_divider {
        2 * scaled_spec(DOCK_DIVIDER_GAP as int, dpi) + scaled_spec(DOCK_DIVIDER_WIDTH as int, dpi)
    } else {
        0
    }
}

/// Total bar width: icons, gaps between them, the divider, side padding.
pub open spec fn dock_bar_width(dpi: int, icon_cfg: int, pinned: int, total: int) -> int {
    let icon = scaled_spec(icon_cfg, dpi);
    let gap = scaled_spec(DOCK_ICON_GAP as int, dpi);
    let count = dock_count(total);
    count * icon + (count - 1) * gap + dock_divider_extra(dpi, dock_has_divider(pinned, total)) + 2
        * scaled_spec(DOCK_PADDING_X as int, dpi)
}

/// Bar height: one icon plus top and bottom padding.
pub open spec fn dock_bar_height(dpi: int, icon_cfg: int) -> int {
    scaled_spec(icon_cfg, dpi) + 2 * scaled_spec(DOCK_PADDING_Y as int, dpi)
}

/// The bar's bottom edge: inside the card's bottom margin band.
pub open spec fn dock_bar_bottom(card: Rect, dpi: int) -> int {
    card.bottom + scaled_spec(CARD_MARGIN_BOTTOM as int, dpi) - scaled_spec(DOCK_MARGIN_BOTTOM as int, dpi)
}

/// Left edge of slot `i` for a bar whose left edge is `bar_left`.
pub open spec fn dock_slot_left(bar_left: int, dpi: int, icon_cfg: int, pinned: int, total: int, i: int) -> int {
    let icon = scaled_spec(icon_cfg, dpi);
    let gap = scaled_spec(DOCK_ICON_GAP as int, dpi);
    let hd = dock_has_divider(pinned, total);
    bar_left + scaled_spec(DOCK_PADDING_X as int, dpi) + i * (icon + gap) + (if hd && i >= pinned {
        dock_divider_extra(dpi, true)
    } else {
        0
    })
}

/// Left edge of the divider (when drawn).
pub open spec fn dock_divider_left(bar_left: int, dpi: int, icon_cfg: int, pinned: int) -> int {
    let icon = scaled_spec(icon_cfg, dpi);
    let gap = scaled_spec(DOCK_ICON_GAP as int, dpi);
    bar_left + scaled_spec(DOCK_PADDING_X as int, dpi) + pinned * (icon + gap) + scaled_spec(
        DOCK_DIVIDER_GAP as int,
        dpi,
    )
}

/// Inputs for which the dock's arithmetic stays within `i32`.
pub open spec fn dock_inputs_ok(card: Rect, dpi: int, icon_cfg: int, total: int) -> bool {
    &&& 0 <= dpi <= MAX_DPI
    &&& 0 <= icon_cfg <= 1024
    &&& 0 <= total <= 1024
    &&& small(card.left as int)
    &&& small(card.right as int)
    &&& small(card.bottom as int)
}

/// The dock bar rect, its slots and divider, laid out under `card`
/// (the focused workspace card) at `dpi`, for icons `icon_size_cfg`
/// (96-DPI) wide, aligned by `alignment`. The first `pinned_count` slots
/// are pinned entries; the divider separates them from the rest.
pub fn dock_layout(
    card: Rect,
    dpi: u32,
    icon_size_cfg: i32,
    alignment: &str,
    pinned_count: usize,
    total_count: usize,
) -> (layout: DockLayout)
    requires
        dock_inputs_ok(card, dpi as int, icon_size_cfg as int, total_count as int),
    ensures
        ({
            let bar_w = dock_bar_width(dpi as int, icon_size_cfg as int, pinned_count as int, total_count as int);
            let bottom = dock_bar_bottom(card, dpi as int);
            &&& layout.bar.left == anchor_x_spec(card.left as int, card.right as int, bar_w, alignment@)
            &&& layout.bar.right == layout.bar.left + bar_w
            &&& layout.bar.bottom == bottom
            &&& layout.bar.top == bottom - dock_bar_height(dpi as int, icon_size_cfg as int)
        }),
        layout.slots@.len() == dock_count(total_count as int),
        forall|i: int|
            0 <= i < layout.slots@.len() ==> {
                let s = #[trigger] layout.slots@[i];
                let icon = scaled_spec(icon_size_cfg as int, dpi as int);
                &&& s.left == dock_slot_left(
                    layout.bar.left as int,
                    dpi as int,
                    icon_size_cfg as int,
                    pinned_count as int,
                    total_count as int,
                    i,
                )
                &&& s.right == s.left + icon
                &&& s.top == layout.bar.top + scaled_spec(DOCK_PADDING_Y as int, dpi as int)
                &&& s.bottom == s.top + icon
            },
        dock_has_divider(pinned_count as int, total_count as int) ==> (layout.divider matches Some(d)
            && {
            let pad_y = scaled_spec(DOCK_PADDING_Y as int, dpi as int);
            &&& d.left == dock_divider_left(
                layout.bar.left as int,
                dpi as int,
                icon_size_cfg as int,
                pinned_count as int,
            )
            &&& d.right == d.left + scaled_spec(DOCK_DIVIDER_WIDTH as int, dpi as int)
            &&& d.top == layout.bar.top + div_trunc(pad_y, 2)
            &&& d.bottom == layout.bar.bottom - div_trunc(pad_y, 2)
        }),
        !dock_has_divider(pinned_count as int, total_count as int) ==> layout.divider is None,
        0 < pinned_count < total_count ==> (layout.divider matches Some(d) && {
            &&& layout.slots@[pinned_count - 1].right + scaled_spec(DOCK_ICON_GAP as int, dpi as int) + scaled_spec(
                DOCK_DIVIDER_GAP as int,
                dpi as int,
            ) == d.left
            &&& d.right - d.left == scaled_spec(DOCK_DIVIDER_WIDTH as int, dpi as int)
            &&& d.right + scaled_spec(DOCK_DIVIDER_GAP as int, dpi as int) == layout.slots@[pinned_count as int].left
        }),
        !(0 < pinned_count < total_count) ==> layout.divider is None,
        forall|i: int|
            0 <= i && i + 1 < layout.slots@.len() ==> #[trigger] layout.slots@[i + 1].left == layout.slots@[i].right
                + scaled_spec(DOCK_ICON_GAP as int, dpi as int) + (if 0 < pinned_count < total_count && i + 1
                == pinned_count {
                2 * scaled_spec(DOCK_DIVIDER_GAP as int, dpi as int) + scaled_spec(DOCK_DIVIDER_WIDTH as int, dpi as int)
            } else {
                0
            }),
        layout.bar.right - layout.bar.left == layout.slots@.len() * scaled_spec(icon_size_cfg as int, dpi as int)
            + (layout.slots@.len() - 1) * scaled_spec(DOCK_ICON_GAP as int, dpi as int) + 2 * scaled_spec(
            DOCK_PADDING_X as int,
            dpi as int,
        ) + (if 0 < pinned_count < total_count {
            2 * scaled_spec(DOCK_DIVIDER_GAP as int, dpi as int) + scaled_spec(DOCK_DIVIDER_WIDTH as int, dpi as int)
        } else {
            0
        }),
{
    proof {
        lemma_scaled_bounds(icon_size_cfg as int, dpi as int);
        lemma_scaled_bounds(DOCK_ICON_GAP as int, dpi as int);
        lemma_scaled_bounds(DOCK_PADDING_X as int, dpi as int);
        lemma_scaled_bounds(DOCK_PADDING_Y as int, dpi as int);
        lemma_scaled_bounds(DOCK_DIVIDER_GAP as int, dpi as int);
        lemma_scaled_bounds(DOCK_DIVIDER_WIDTH as int, dpi as int);
        lemma_scaled_bounds(CARD_MARGIN_BOTTOM as int, dpi as int);
        lemma_scaled_bounds(DOCK_MARGIN_BOTTOM as int, dpi as int);
        lemma_mul_bounds(icon_size_cfg as int, dpi as int, 1024, 9600);
    }
    let icon = scaled(icon_size_cfg, dpi);
    let gap = scaled(DOCK_ICON_GAP, dpi);
    let pad_x = scaled(DOCK_PADDING_X, dpi);
    let pad_y = scaled(DOCK_PADDING_Y, dpi);
    let divider_gap = scaled(DOCK_DIVIDER_GAP, dpi);
    let divider_width = scaled(DOCK_DIVIDER_WIDTH, dpi);

    let count: i32 = if total_count > 1 { total_count as i32 } else { 1 };
    let has_divider = pinned_count > 0 && pinned_count < total_count;
    let extra: i32 = if has_divider { divider_gap * 2 + divider_width } else { 0 };
    proof {
        lemma_mul_bounds(count as int, icon as int, 1024, 102401);
        lemma_mul_bounds((count - 1) as int, gap as int, 1024, 1401);
    }
    let content_w: i32 = count * icon + (count - 1) * gap + extra;
    let bar_w: i32 = content_w + pad_x * 2;
    let bar_h: i32 = icon + pad_y * 2;

    let bar_left = anchor_x(card.left, card.right, bar_w, alignment);
    let bar_bottom: i32 = card.bottom + scaled(CARD_MARGIN_BOTTOM, dpi) - scaled(DOCK_MARGIN_BOTTOM, dpi);
    let bar_top: i32 = bar_bottom - bar_h;
    let bar = Rect { left: bar_left, top: bar_top, right: bar_left + bar_w, bottom: bar_bottom };

    let mut slots: Vec<Rect> = Vec::new();
    let mut divider: Option<Rect> = None;
    let mut x: i32 = bar_left + pad_x;
    let mut i: i32 = 0;
    while i < count
        invariant
            0 <= i <= count,
            1 <= count <= 1024,
            count == dock_count(total_count as int),
            has_divider == dock_has_divider(pinned_count as int, total_count as int),
            0 <= icon <= 102401,
            0 <= gap <= 1401,
            0 <= pad_x <= 1401,
            0 <= pad_y <= 1001,
            0 <= divider_gap <= 1001,
            0 <= divider_width <= 201,
            icon == scaled_spec(icon_size_cfg as int, dpi as int),
            gap == scaled_spec(DOCK_ICON_GAP as int, dpi as int),
            pad_x == scaled_spec(DOCK_PADDING_X as int, dpi as int),
            pad_y == scaled_spec(DOCK_PADDING_Y as int, dpi as int),
            divider_gap == scaled_spec(DOCK_DIVIDER_GAP as int, dpi as int),
            divider_width == scaled_spec(DOCK_DIVIDER_WIDTH as int, dpi as int),
            -200_000_000 <= bar_left <= 200_000_000,
            -200_000_000 <= bar_top <= 200_000_000,
            bar.left == bar_left,
            bar.top == bar_top,
            bar.bottom == bar_bottom,
            -200_000_000 <= bar_bottom <= 200_000_000,
            x == bar_left + pad_x + i * (icon + gap) + (if has_divider && i > pinned_count {
                dock_divider_extra(dpi as int, true)
            } else {
                0
            }),
            slots@.len() == i,
            forall|j: int|
                0 <= j < i ==> {
                    let s = #[trigger] slots@[j];
                    &&& s.left == dock_slot_left(
                        bar_left as int,
                        dpi as int,
                        icon_size_cfg as int,
                        pinned_count as int,
                        total_count as int,
                        j,
                    )
                    &&& s.right == s.left + icon
                    &&& s.top == bar_top + pad_y
                    &&& s.bottom == s.top + icon
                },
            has_divider && i > pinned_count ==> (divider matches Some(d) && {
                &&& d.left == dock_divider_left(
                    bar_left as int,
                    dpi as int,
                    icon_size_cfg as int,
                    pinned_count as int,
                )
                &&& d.right == d.left + divider_width
                &&& d.top == bar_top + div_trunc(pad_y as int, 2)
                &&& d.bottom == bar_bottom - div_trunc(pad_y as int, 2)
            }),
            !(has_divider && i > pinned_count) ==> divider is None,
        decreases count - i,
    {
        proof {
            lemma_mul_bounds(i as int, (icon + gap) as int, 1024, 103802);
        }
        if has_divider && i as usize == pinned_count {
            x = x + divider_gap;
            divider = Some(
                Rect {
                    left: x,
                    top: bar_top + pad_y / 2,
                    right: x + divider_width,
                    bottom: bar_bottom - pad_y / 2,
                },
            );
            x = x + divider_width + divider_gap;
        }
        slots.push(Rect { left: x, top: bar_top + pad_y, right: x + icon, bottom: bar_top + pad_y + icon });
        proof {
            lemma_mul_bounds((i + 1) as int, (icon + gap) as int, 1025, 103802);
            assert((i + 1) * (icon + gap) == i * (icon + gap) + (icon + gap)) by (nonlinear_arith);
        }
        x = x + icon + gap;
        i += 1;
    }
    proof {
        let k = icon + gap;
        assert forall|j: int| 0 <= j && j + 1 < slots@.len() implies #[trigger] slots@[j + 1].left == slots@[j].right
            + gap + (if 0 < pinned_count < total_count && j + 1 == pinned_count {
            2 * divider_gap + divider_width
        } else {
            0
        }) by {
            assert((j + 1) * k == j * k + k) by (nonlinear_arith);
            assert(slots@[j].left == dock_slot_left(
                bar_left as int,
                dpi as int,
                icon_size_cfg as int,
                pinned_count as int,
                total_count as int,
                j,
            ));
            assert(slots@[j + 1].left == dock_slot_left(
                bar_left as int,
                dpi as int,
                icon_size_cfg as int,
                pinned_count as int,
                total_count as int,
                j + 1,
            ));
        }
        if 0 < pinned_count < total_count {
            let p = pinned_count as int;
            assert(p * k == (p - 1) * k + k) by (nonlinear_arith);
            assert(slots@[p - 1].left == dock_slot_left(
                bar_left as int,
                dpi as int,
                icon_size_cfg as int,
                pinned_count as int,
                total_count as int,
                p - 1,
            ));
            assert(slots@[p].left == dock_slot_left(
                bar_left as int,
                dpi as int,
                icon_size_cfg as int,
                pinned_count as int,
                total_count as int,
                p,
            ));
        }
    }
    DockLayout { bar, slots, divider }
}

/// Dock slots read left to right without overlapping, all inside the bar
/// (the first starts after the left padding, the last ends before the
/// right padding), and the divider, when drawn, sits between the last
/// pinned slot and the first unpinned one.
pub proof fn lemma_dock_layout_is_ordered(
    bar_left: int,
    dpi: int,
    icon_cfg: int,
    pinned: int,
    total: int,
    i: int,
)
    requires
        0 <= dpi <= MAX_DPI,
        0 <= icon_cfg,
        0 <= pinned,
        0 <= total,
        0 <= i < dock_count(total),
    ensures
        dock_slot_left(bar_left, dpi, icon_cfg, pinned, total, 0) == bar_left + scaled_spec(
            DOCK_PADDING_X as int,
            dpi,
        ),
        i + 1 < dock_count(total) ==> dock_slot_left(bar_left, dpi, icon_cfg, pinned, total, i)
            + scaled_spec(icon_cfg, dpi) <= dock_slot_left(bar_left, dpi, icon_cfg, pinned, total, i + 1),
        dock_slot_left(bar_left, dpi, icon_cfg, pinned, total, dock_count(total) - 1) + scaled_spec(
            icon_cfg,
            dpi,
        ) + scaled_spec(DOCK_PADDING_X as int, dpi) == bar_left + dock_bar_width(
            dpi,
            icon_cfg,
            pinned,
            total,
        ),
        dock_has_divider(pinned, total) ==> dock_slot_left(bar_left, dpi, icon_cfg, pinned, total, pinned - 1)
            + scaled_spec(icon_cfg, dpi) <= dock_divider_left(bar_left, dpi, icon_cfg, pinned)
            && dock_divider_left(bar_left, dpi, icon_cfg, pinned) + scaled_spec(DOCK_DIVIDER_WIDTH as int, dpi)
            <= dock_slot_left(bar_left, dpi, icon_cfg, pinned, total, pinned),
{
    lemma_scaled_bounds(icon_cfg, dpi);
    lemma_scaled_bounds(DOCK_ICON_GAP as int, dpi);
    lemma_scaled_bounds(DOCK_DIVIDER_GAP as int, dpi);
    lemma_scaled_bounds(DOCK_DIVIDER_WIDTH as int, dpi);
    let k = scaled_spec(icon_cfg, dpi) + scaled_spec(DOCK_ICON_GAP as int, dpi);
    let count = dock_count(total);
    assert((i + 1) * k == i * k + k) by (nonlinear_arith);
    assert(0 * k == 0) by (nonlinear_arith);
    assert((count - 1) * k == count * scaled_spec(icon_cfg, dpi) + (count - 1) * scaled_spec(
        DOCK_ICON_GAP as int,
        dpi,
    ) - scaled_spec(icon_cfg, dpi)) by (nonlinear_arith)
        requires
            k == scaled_spec(icon_cfg, dpi) + scaled_spec(DOCK_ICON_GAP as int, dpi),
    ;
    assert(pinned * k == (pinned - 1) * k + k) by (nonlinear_arith);
}

/// With some entries pinned and some not, the divider sits between the
/// last pinned slot and the first running one: those two slots are the
/// divider's width and two divider gaps further apart than any other
/// neighbours, the divider lies between them, and the bar is wider by the
/// same amount than a dock with nothing pinned.
pub proof fn lemma_divider_separates_pinned_from_running(
    bar_left: int,
    dpi: int,
    icon_cfg: int,
    pinned: int,
    total: int,
)
    requires
        0 <= dpi <= MAX_DPI,
        0 <= icon_cfg,
        0 < pinned < total,
    ensures
        ({
            let icon = scaled_spec(icon_cfg, dpi);
            let gap = scaled_spec(DOCK_ICON_GAP as int, dpi);
            let extra = 2 * scaled_spec(DOCK_DIVIDER_GAP as int, dpi) + scaled_spec(DOCK_DIVIDER_WIDTH as int, dpi);
            let last_pinned_right = dock_slot_left(bar_left, dpi, icon_cfg, pinned, total, pinned - 1) + icon;
            let first_running = dock_slot_left(bar_left, dpi, icon_cfg, pinned, total, pinned);
            let divider = dock_divider_left(bar_left, dpi, icon_cfg, pinned);
            &&& first_running - last_pinned_right == gap + extra
            &&& last_pinned_right + gap + scaled_spec(DOCK_DIVIDER_GAP as int, dpi) == divider
            &&& divider + scaled_spec(DOCK_DIVIDER_WIDTH as int, dpi) + scaled_spec(DOCK_DIVIDER_GAP as int, dpi)
                == first_running
            &&& dock_bar_width(dpi, icon_cfg, pinned, total) == dock_bar_width(dpi, icon_cfg, 0, total) + extra
        }),
{
    let k = scaled_spec(icon_cfg, dpi) + scaled_spec(DOCK_ICON_GAP as int, dpi);
    assert(pinned * k == (pinned - 1) * k + k) by (nonlinear_arith);
    lemma_scaled_bounds(DOCK_DIVIDER_WIDTH as int, dpi);
    lemma_scaled_bounds(DOCK_DIVIDER_GAP as int, dpi);
}

/// One dock entry: a pinned shortcut (with a launch path), a running app
/// without one, or a pinned app that is also running. Window handles are
/// the raw `HWND` values of the app's tracked windows.
#[derive(Debug)]
pub struct DockEntry {
    pub launch_path: Option<String>,
    pub windows: Vec<isize>,
}

/// How many entries of `apps` carry a launch path.
pub open spec fn pinned_count_spec(apps: Seq<DockEntry>) -> nat
    decreases apps.len(),
{
    if apps.len() == 0 {
        0
    } else {
        pinned_count_spec(apps.drop_last()) + (if apps.last().launch_path is Some { 1nat } else { 0nat })
    }
}

/// How many of `apps` are pinned (have a launch path); pinned entries are
/// laid out first, so this is also where the divider goes.
pub fn pinned_count(apps: &[DockEntry]) -> (n: usize)
    ensures
        n == pinned_count_spec(apps@),
{
    let mut n: usize = 0;
    let mut i: usize = 0;
    while i < apps.len()
        invariant
            i <= apps@.len(),
            n == pinned_count_spec(apps@.subrange(0, i as int)),
            n <= i,
        decreases apps.len() - i,
    {
        assert(apps@.subrange(0, i as int + 1).drop_last() =~= apps@.subrange(0, i as int));
        if apps[i].launch_path.is_some() {
            n += 1;
        }
        i += 1;
    }
    assert(apps@.subrange(0, apps@.len() as int) =~= apps@);
    n
}

/// Whether some entry of `paths` has the characters of `path`.
pub open spec fn has_path(paths: Seq<String>, path: Seq<char>) -> bool {
    exists|i: int| 0 <= i < paths.len() && paths[i]@ == path
}

/// Whether std's `Path` equality, on this build's target platform, holds
/// between the paths spelled `a` and `b`: it compares the paths'
/// components, so separators, repeated separators, a trailing separator
/// and `.` components do not tell paths apart.
pub uninterp spec fn path_components_equal(a: Seq<char>, b: Seq<char>) -> bool;

/// Whether a pinned entry `p` names `path`, as the pinned list compares
/// paths.
pub open spec fn pin_matches(p: Seq<char>, path: Seq<char>) -> bool {
    p == path || path_components_equal(p, path)
}

/// Whether some entry of `paths` names `path`.
pub open spec fn has_pin(paths: Seq<String>, path: Seq<char>) -> bool {
    exists|i: int| 0 <= i < paths.len() && pin_matches(paths[i]@, path)
}

/// Index of the first entry of `paths` naming `path`.
pub open spec fn first_pin_index(paths: Seq<String>, path: Seq<char>) -> int
    recommends
        has_pin(paths, path),
{
    choose|i: int|
        0 <= i < paths.len() && pin_matches(paths[i]@, path) && forall|j: int| 0 <= j < i ==> !pin_matches(paths[j]@, path)
}

/// std's `Path == Path` on two path strings. Claimed: the result is the
/// named component-wise comparison, and a path spelled the same way as
/// another equals it (`Path`'s equality is reflexive).
#[verifier::external_body]
fn paths_equal(a: &str, b: &str) -> (r: bool)
    ensures
        r == (a@ == b@ || path_components_equal(a@, b@)),
{
    std::path::Path::new(a) == std::path::Path::new(b)
}

/// Finds the first entry naming `path`, if any.
fn find_pin(paths: &Vec<String>, path: &str) -> (r: Option<usize>)
    ensures
        match r {
            Some(i) => i < paths@.len() && pin_matches(paths@[i as int]@, path@) && forall|j: int|
                0 <= j < i ==> !pin_matches(paths@[j]@, path@),
            None => !has_pin(paths@, path@),
        },
{
    let mut i: usize = 0;
    while i < paths.len()
        invariant
            i <= paths@.len(),
            forall|j: int| 0 <= j < i ==> !pin_matches(paths@[j]@, path@),
        decreases paths.len() - i,
    {
        if paths_equal(paths[i].as_str(), path) {
            return Some(i);
        }
        i += 1;
    }
    None
}

/// GroveShell's own ordered list of pinned launch paths, the authoritative
/// source for the dock's pinned entries once it has been loaded or seeded.
pub struct PinnedList {
    paths: Vec<String>,
}

impl View for PinnedList {
    type V = Seq<String>;

    closed spec fn view(&self) -> Seq<String> {
        self.paths@
    }
}

impl PinnedList {
    /// A list holding `paths`, in order.
    pub fn new(paths: Vec<String>) -> (r: Self)
        ensures
            r@ == paths@,
    {
        PinnedList { paths }
    }

    /// The current pinned list, in order.
    pub fn pinned_paths(&self) -> (r: Vec<String>)
        ensures
            r@ == self@,
    {
        let mut r: Vec<String> = Vec::new();
        let mut i: usize = 0;
        while i < self.paths.len()
            invariant
                i <= self.paths@.len(),
                r@ == self.paths@.subrange(0, i as int),
            decreases self.paths.len() - i,
        {
            r.push(self.paths[i].clone());
            i += 1;
        }
        assert(r@ =~= self.paths@);
        r
    }

    /// Whether `path` is pinned (compared as paths, component by component).
    pub fn is_pinned(&self, path: &str) -> (r: bool)
        ensures
            r == has_pin(self@, path@),
    {
        find_pin(&self.paths, path).is_some()
    }

    /// Adds `path` at the end unless it is already pinned; returns whether
    /// the list changed (and so has to be persisted).
    pub fn pin_app(&mut self, path: String) -> (changed: bool)
        ensures
            has_pin(old(self)@, path@) ==> final(self)@ == old(self)@ && !changed,
            !has_pin(old(self)@, path@) ==> final(self)@ == old(self)@.push(path) && changed,
    {
        if find_pin(&self.paths, path.as_str()).is_some() {
            return false;
        }
        self.paths.push(path);
        true
    }

    /// Removes the first entry naming `path`, if any; returns whether the
    /// list changed (and so has to be persisted).
    pub fn unpin_app(&mut self, path: &str) -> (changed: bool)
        ensures
            has_pin(old(self)@, path@) ==> changed && final(self)@ == old(self)@.remove(
                first_pin_index(old(self)@, path@),
            ),
            !has_pin(old(self)@, path@) ==> !changed && final(self)@ == old(self)@,
    {
        match find_pin(&self.paths, path) {
            Some(i) => {
                proof {
                    let k = first_pin_index(self.paths@, path@);
                    assert(0 <= i < self.paths@.len() && pin_matches(self.paths@[i as int]@, path@));
                    if k < i {
                        assert(!pin_matches(self.paths@[k]@, path@));
                    }
                    if k > i {
                        assert(!pin_matches(self.paths@[i as int]@, path@));
                    }
                    assert(k == i);
                }
                self.paths.remove(i);
                true
            },
            None => false,
        }
    }

    /// Replaces the list (after a drag reorder).
    pub fn set_paths(&mut self, paths: Vec<String>)
        ensures
            final(self)@ == paths@,
    {
        self.paths = paths;
    }
}

/// Pinning a path that was not pinned and then unpinning it gives back the
/// list as it was; pinning an already pinned path changes nothing.
pub proof fn lemma_pin_then_unpin_restores(paths: Seq<String>, path: String)
    ensures
        !has_pin(paths, path@) ==> has_pin(paths.push(path), path@) && paths.push(path).remove(
            first_pin_index(paths.push(path), path@),
        ) =~= paths,
{
    if !has_pin(paths, path@) {
        let pushed = paths.push(path);
        assert(pin_matches(pushed[paths.len() as int]@, path@));
        assert(has_pin(pushed, path@));
        let k = first_pin_index(pushed, path@);
        if k < paths.len() {
            assert(pushed[k] == paths[k]);
            assert(pin_matches(paths[k]@, path@));
            assert(has_pin(paths, path@));
        }
        assert(k == paths.len());
    }
}

/// The pinned list to start from on a first run: the real taskbar's pins,
/// or the built-in defaults when the taskbar has none.
pub fn seed_pins(taskbar: Vec<String>, defaults: Vec<String>) -> (r: Vec<String>)
    ensures
        taskbar@.len() == 0 ==> r@ == defaults@,
        taskbar@.len() > 0 ==> r@ == taskbar@,
{
    if taskbar.len() == 0 {
        defaults
    } else {
        taskbar
    }
}

/// Startup: the persisted list when the pin file (its text, `None` when it
/// could not be read) holds one; else the seed (taskbar pins, falling back
/// to defaults), returned with the text to write to the pin file.
pub fn init_pinned_list(file_text: Option<String>, taskbar: Vec<String>, defaults: Vec<String>) -> (r: (
    PinnedList,
    Option<String>,
))
    ensures
        ({
            let parsed = match file_text {
                Some(t) => json_path_list(t@),
                None => None,
            };
            let seed = if taskbar@.len() == 0 { defaults@ } else { taskbar@ };
            match parsed {
                Some(s) => string_views(r.0@) == s && r.1 is None,
                None => r.0@ == seed && r.1 is Some && r.1->0@ == json_pretty_path_list(string_views(seed)),
            }
        }),
{
    let seeded = crate::dock_pins::load_or_seed_file(file_text, seed_pins(taskbar, defaults));
    (PinnedList::new(seeded.pins), seeded.save)
}

/// Distance from a slot's horizontal center to `x`.
pub open spec fn center_distance(r: Rect, x: int) -> int {
    let d = div_trunc(r.left + r.right, 2) - x;
    if d >= 0 { d } else { -d }
}

/// Whether slot `t` is the first of the first `m` slots nearest to `x`.
pub open spec fn is_nearest_slot(slots: Seq<Rect>, m: int, x: int, t: int) -> bool {
    &&& 0 <= t < m
    &&& forall|j: int| 0 <= j < m ==> center_distance(slots[t], x) <= center_distance(slots[j], x)
    &&& forall|j: int| 0 <= j < t ==> center_distance(slots[j], x) > center_distance(slots[t], x)
}

/// Where a dragged pin dropped at `x` goes: the first of the first
/// `pinned_len` slots whose center is nearest to `x`; `from` when there is
/// no pinned slot.
pub open spec fn reorder_target_spec(slots: Seq<Rect>, pinned_len: int, x: int, from: int) -> int {
    let m = if pinned_len < slots.len() { pinned_len } else { slots.len() as int };
    if m <= 0 {
        from
    } else {
        choose|t: int| is_nearest_slot(slots, m, x, t)
    }
}

/// At most one slot is the first nearest one.
pub proof fn lemma_nearest_slot_unique(slots: Seq<Rect>, m: int, x: int, t1: int, t2: int)
    requires
        is_nearest_slot(slots, m, x, t1),
        is_nearest_slot(slots, m, x, t2),
    ensures
        t1 == t2,
{
    if t1 < t2 {
        assert(center_distance(slots[t1], x) > center_distance(slots[t2], x));
    }
    if t2 < t1 {
        assert(center_distance(slots[t2], x) > center_distance(slots[t1], x));
    }
}

/// Where a dragged pin dropped at `x` goes: the first of the first
/// `pinned_len` slots whose center is nearest to `x` (running-but-unpinned
/// slots are never targets); `from_index` when there is no pinned slot.
pub fn reorder_target(slots: &[Rect], pinned_len: usize, x: i32, from_index: usize) -> (t: usize)
    requires
        forall|i: int| 0 <= i < slots@.len() ==> small(slots@[i].left as int) && small(slots@[i].right as int),
        small(x as int),
    ensures
        t == reorder_target_spec(slots@, pinned_len as int, x as int, from_index as int),
{
    let m: usize = if pinned_len < slots.len() { pinned_len } else { slots.len() };
    if m == 0 {
        return from_index;
    }
    let mut best: usize = 0;
    let c0: i32 = (slots[0].left + slots[0].right) / 2 - x;
    let mut best_d: i32 = if c0 >= 0 { c0 } else { -c0 };
    let mut i: usize = 1;
    while i < m
        invariant
            1 <= i <= m,
            m <= slots@.len(),
            best < i,
            forall|k: int| 0 <= k < slots@.len() ==> small(slots@[k].left as int) && small(slots@[k].right as int),
            small(x as int),
            best_d == center_distance(slots@[best as int], x as int),
            forall|j: int| 0 <= j < i ==> best_d <= center_distance(slots@[j], x as int),
            forall|j: int| 0 <= j < best ==> center_distance(slots@[j], x as int) > best_d,
        decreases m - i,
    {
        let c: i32 = (slots[i].left + slots[i].right) / 2 - x;
        let d: i32 = if c >= 0 { c } else { -c };
        if d < best_d {
            best = i;
            best_d = d;
        }
        i += 1;
    }
    proof {
        assert(is_nearest_slot(slots@, m as int, x as int, best as int));
        let c = choose|t: int| is_nearest_slot(slots@, m as int, x as int, t);
        lemma_nearest_slot_unique(slots@, m as int, x as int, best as int, c);
    }
    best
}

/// The reordered pinned list for a dock drag released at `(x, y)` inside
/// the dock `bar`; `None` when the release is outside the bar (a drop on a
/// workspace card, or a cancel).
pub fn dock_drop_reorder(
    pins: &[String],
    bar: Rect,
    slots: &[Rect],
    x: i32,
    y: i32,
    from_index: usize,
) -> (r: Option<Vec<String>>)
    requires
        forall|i: int| 0 <= i < slots@.len() ==> small(slots@[i].left as int) && small(slots@[i].right as int),
        small(x as int),
    ensures
        !bar.has_point(x as int, y as int) ==> r is None,
        bar.has_point(x as int, y as int) ==> (r matches Some(v) && v@ == reorder_spec(
            pins@,
            from_index as int,
            reorder_target_spec(slots@, pins@.len() as int, x as int, from_index as int),
        )),
{
    if !bar.contains(x, y) {
        return None;
    }
    let target = reorder_target(slots, pins.len(), x, from_index);
    Some(reorder(pins, from_index, target))
}

} // verus!
