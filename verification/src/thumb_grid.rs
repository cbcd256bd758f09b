//! The window grid inside a workspace card: `n` windows in a near-square
//! auto grid (⌈√n⌉ columns), each preview aspect-fit (letterboxed, never
//! stretched) in its cell, with room below for the app-icon badge that
//! straddles the preview's bottom edge.

use vstd::prelude::*;
use crate::geometry::{div_trunc, lemma_mul_bounds, lemma_scaled_bounds, scaled, scaled_spec, Rect, MAX_DPI};

verus! {

/// Inset from a card's edges to where its window grid starts (96-DPI).
pub const CARD_CONTENT_PADDING: i32 = 28;
/// Gap between grid cells (96-DPI).
pub const THUMB_GAP: i32 = 20;
/// Size of a preview's app-icon badge (96-DPI).
pub const THUMB_ICON_SIZE: i32 = 28;
/// More windows than one session can hold: Windows caps USER objects
/// (windows among them) at 65 536 per session.
pub const MAX_GRID_WINDOWS: usize = 65_536;

/// The smallest `c`, counting up from `c`, whose square reaches `n`.
pub open spec fn ceil_sqrt_from(c: int, n: int) -> int
    decreases n - c,
{
    if c >= n || c * c >= n {
        c
    } else {
        ceil_sqrt_from(c + 1, n)
    }
}

/// Grid columns for `n` windows: ⌈√n⌉.
pub open spec fn grid_cols(n: int) -> int {
    ceil_sqrt_from(1, n)
}

/// Grid rows: enough rows of `grid_cols(n)` for all `n` windows.
pub open spec fn grid_rows(n: int) -> int {
    (n + grid_cols(n) - 1) / grid_cols(n)
}

proof fn lemma_ceil_sqrt_from(c: int, n: int)
    requires
        1 <= c <= n,
        (c - 1) * (c - 1) < n,
    ensures
        c <= ceil_sqrt_from(c, n) <= n,
        ceil_sqrt_from(c, n) * ceil_sqrt_from(c, n) >= n,
        (ceil_sqrt_from(c, n) - 1) * (ceil_sqrt_from(c, n) - 1) < n,
    decreases n - c,
{
    if c * c < n {
        assert(c < n) by (nonlinear_arith)
            requires
                1 <= c,
                c * c < n,
        ;
        lemma_ceil_sqrt_from(c + 1, n);
    } else {
        assert(c * c >= n);
    }
}

/// The column count is exactly ⌈√n⌉: its square covers `n`, one fewer
/// column would not, and it never exceeds `n`.
pub proof fn lemma_grid_cols(n: int)
    requires
        1 <= n,
    ensures
        1 <= grid_cols(n) <= n,
        grid_cols(n) * grid_cols(n) >= n,
        (grid_cols(n) - 1) * (grid_cols(n) - 1) < n,
{
    lemma_ceil_sqrt_from(1, n);
}

/// `a / b` rounded to the nearest integer, halves up (`a >= 0`, `b > 0`).
pub open spec fn round_div(a: int, b: int) -> int {
    (2 * a + b) / (2 * b)
}

/// `v`, but at least one.
pub open spec fn at_least_one(v: int) -> int {
    if v > 1 { v } else { 1 }
}

/// The aspect-fit size of a `src_w` x `src_h` window in a `slot_w` x
/// `slot_h` slot: a wider window fills the slot's width, any other its
/// height; the other side keeps the window's aspect, rounded, at least 1.
pub open spec fn fit_size(slot_w: int, slot_h: int, src_w: int, src_h: int) -> (int, int) {
    if src_w * slot_h > slot_w * src_h {
        (slot_w, at_least_one(round_div(slot_w * src_h, src_w)))
    } else {
        (at_least_one(round_div(slot_h * src_w, src_h)), slot_h)
    }
}

/// Content inset from the card edges at `dpi`.
pub open spec fn grid_pad(dpi: int) -> int {
    scaled_spec(CARD_CONTENT_PADDING as int, dpi)
}

/// Width of a grid cell for `n` windows in `card`.
pub open spec fn grid_cell_w(card: Rect, dpi: int, n: int) -> int {
    at_least_one((card.right - grid_pad(dpi)) - (card.left + grid_pad(dpi))) / grid_cols(n)
}

/// Height of a grid cell for `n` windows in `card`.
pub open spec fn grid_cell_h(card: Rect, dpi: int, n: int) -> int {
    at_least_one((card.bottom - grid_pad(dpi)) - (card.top + grid_pad(dpi))) / grid_rows(n)
}

/// Icon-badge size at `dpi`.
pub open spec fn grid_icon(dpi: int) -> int {
    scaled_spec(THUMB_ICON_SIZE as int, dpi)
}

/// Room kept below a preview for the lower half of its badge.
pub open spec fn grid_band(dpi: int) -> int {
    grid_icon(dpi) / 2
}

/// Width of the slot a preview is fitted into.
pub open spec fn grid_slot_w(card: Rect, dpi: int, n: int) -> int {
    at_least_one(grid_cell_w(card, dpi, n) - scaled_spec(THUMB_GAP as int, dpi))
}

/// Height of the slot a preview is fitted into.
pub open spec fn grid_slot_h(card: Rect, dpi: int, n: int) -> int {
    at_least_one(grid_cell_h(card, dpi, n) - scaled_spec(THUMB_GAP as int, dpi) - grid_band(dpi))
}

/// Window `i`'s preview rect and icon-badge rect, for a window whose
/// on-screen rect is `win`: centred in its cell above the badge band, the
/// badge centred on the preview's bottom edge.
pub open spec fn grid_slot(card: Rect, dpi: int, n: int, i: int, win: Rect) -> (Rect, Rect) {
    let cols = grid_cols(n);
    let cell_w = grid_cell_w(card, dpi, n);
    let cell_h = grid_cell_h(card, dpi, n);
    let icon = grid_icon(dpi);
    let src_w = at_least_one(win.right - win.left);
    let src_h = at_least_one(win.bottom - win.top);
    let (fit_w, fit_h) = fit_size(grid_slot_w(card, dpi, n), grid_slot_h(card, dpi, n), src_w, src_h);
    let cell_left = card.left + grid_pad(dpi) + (i % cols) * cell_w;
    let cell_top = card.top + grid_pad(dpi) + (i / cols) * cell_h;
    let thumb_left = cell_left + div_trunc(cell_w - fit_w, 2);
    let thumb_top = cell_top + div_trunc(cell_h - grid_band(dpi) - fit_h, 2);
    let icon_left = thumb_left + div_trunc(fit_w - icon, 2);
    let icon_top = thumb_top + fit_h - icon / 2;
    (
        Rect {
            left: thumb_left as i32,
            top: thumb_top as i32,
            right: (thumb_left + fit_w) as i32,
            bottom: (thumb_top + fit_h) as i32,
        },
        Rect {
            left: icon_left as i32,
            top: icon_top as i32,
            right: (icon_left + icon) as i32,
            bottom: (icon_top + icon) as i32,
        },
    )
}

/// Aspect-fit letterboxes and never stretches: the fitted size stays
/// inside the slot and fills it along one side.
pub proof fn lemma_fit_within_slot(slot_w: int, slot_h: int, src_w: int, src_h: int)
    requires
        1 <= slot_w,
        1 <= slot_h,
        1 <= src_w,
        1 <= src_h,
    ensures
        ({
            let (w, h) = fit_size(slot_w, slot_h, src_w, src_h);
            &&& 1 <= w <= slot_w
            &&& 1 <= h <= slot_h
            &&& w == slot_w || h == slot_h
        }),
{
    if src_w * slot_h > slot_w * src_h {
        assert(round_div(slot_w * src_h, src_w) <= slot_h) by (nonlinear_arith)
            requires
                src_w * slot_h > slot_w * src_h,
                1 <= src_w,
        ;
    } else {
        assert(round_div(slot_h * src_w, src_h) <= slot_w) by (nonlinear_arith)
            requires
                src_w * slot_h <= slot_w * src_h,
                1 <= src_h,
        ;
    }
}

/// Every one of the `n` windows gets a cell inside the card's content
/// area: its column and row, one cell wide and tall, end within the
/// content width and height.
pub proof fn lemma_grid_cells_within_content(card: Rect, dpi: int, n: int, i: int)
    requires
        0 <= i < n,
    ensures
        ({
            let cols = grid_cols(n);
            let content_w = at_least_one((card.right - grid_pad(dpi)) - (card.left + grid_pad(dpi)));
            let content_h = at_least_one((card.bottom - grid_pad(dpi)) - (card.top + grid_pad(dpi)));
            &&& (i % cols + 1) * grid_cell_w(card, dpi, n) <= content_w
            &&& (i / cols + 1) * grid_cell_h(card, dpi, n) <= content_h
        }),
{
    lemma_grid_cols(n);
    let cols = grid_cols(n);
    let rows = grid_rows(n);
    let content_w = at_least_one((card.right - grid_pad(dpi)) - (card.left + grid_pad(dpi)));
    let content_h = at_least_one((card.bottom - grid_pad(dpi)) - (card.top + grid_pad(dpi)));
    assert((i % cols + 1) * (content_w / cols) <= content_w) by (nonlinear_arith)
        requires
            1 <= cols,
            0 <= i,
            1 <= content_w,
    ;
    assert(1 <= rows && i / cols + 1 <= rows) by (nonlinear_arith)
        requires
            rows == (n + cols - 1) / cols,
            1 <= cols,
            0 <= i < n,
    ;
    assert((i / cols + 1) * (content_h / rows) <= content_h) by (nonlinear_arith)
        requires
            1 <= rows,
            0 <= i / cols + 1 <= rows,
            1 <= content_h,
    ;
}

/// Coordinates of a card small enough for the grid arithmetic.
pub open spec fn card_ok(card: Rect) -> bool {
    &&& -1_000_000 <= card.left <= 1_000_000
    &&& -1_000_000 <= card.top <= 1_000_000
    &&& -1_000_000 <= card.right <= 1_000_000
    &&& -1_000_000 <= card.bottom <= 1_000_000
}

/// ⌈√n⌉ for `1 <= n`.
fn ceil_sqrt(n: i64) -> (c: i64)
    requires
        1 <= n <= MAX_GRID_WINDOWS,
    ensures
        c == grid_cols(n as int),
        1 <= c <= n,
{
    proof {
        lemma_grid_cols(n as int);
    }
    let mut c: i64 = 1;
    let mut sq: i64 = 1;
    while c < n && sq < n
        invariant
            1 <= c <= n,
            n <= MAX_GRID_WINDOWS,
            sq == c * c,
            ceil_sqrt_from(c as int, n as int) == grid_cols(n as int),
        decreases n - c,
    {
        assert((c + 1) * (c + 1) == c * c + 2 * c + 1) by (nonlinear_arith);
        sq = sq + 2 * c + 1;
        c = c + 1;
    }
    c
}

/// Aspect-fit of a window in a slot (see [`fit_size`]).
fn fit(slot_w: i64, slot_h: i64, src_w: i64, src_h: i64) -> (r: (i64, i64))
    requires
        1 <= slot_w <= 4_000_000,
        1 <= slot_h <= 4_000_000,
        1 <= src_w <= 5_000_000_000,
        1 <= src_h <= 5_000_000_000,
    ensures
        (r.0 as int, r.1 as int) == fit_size(slot_w as int, slot_h as int, src_w as int, src_h as int),
        1 <= r.0 <= slot_w,
        1 <= r.1 <= slot_h,
{
    proof {
        lemma_mul_bounds(src_w as int, slot_h as int, 5_000_000_000, 4_000_000);
        lemma_mul_bounds(slot_w as int, src_h as int, 4_000_000, 5_000_000_000);
        lemma_mul_bounds(slot_h as int, src_w as int, 4_000_000, 5_000_000_000);
    }
    if src_w * slot_h > slot_w * src_h {
        let h: i64 = (2 * (slot_w * src_h) + src_w) / (2 * src_w);
        assert(h <= slot_h) by (nonlinear_arith)
            requires
                h == (2 * (slot_w * src_h) + src_w) as int / (2 * src_w) as int,
                src_w * slot_h > slot_w * src_h,
                1 <= src_w,
        ;
        (slot_w, if h > 1 { h } else { 1 })
    } else {
        let w: i64 = (2 * (slot_h * src_w) + src_h) / (2 * src_h);
        assert(w <= slot_w) by (nonlinear_arith)
            requires
                w == (2 * (slot_h * src_w) + src_h) as int / (2 * src_h) as int,
                src_w * slot_h <= slot_w * src_h,
                1 <= src_h,
        ;
        (if w > 1 { w } else { 1 }, slot_h)
    }
}

/// Lays out `windows` (their on-screen rects, in grid order) inside
/// `card` at `dpi`: for each, its preview slot and its icon-badge rect,
/// in the same order. No windows, no slots.
pub fn layout_grid(card: Rect, dpi: u32, windows: &[Rect]) -> (slots: Vec<(Rect, Rect)>)
    requires
        card_ok(card),
        dpi <= MAX_DPI,
        windows@.len() <= MAX_GRID_WINDOWS,
    ensures
        slots@.len() == windows@.len(),
        forall|i: int|
            0 <= i < windows@.len() ==> #[trigger] slots@[i] == grid_slot(
                card,
                dpi as int,
                windows@.len() as int,
                i,
                windows@[i],
            ),
{
    let mut slots: Vec<(Rect, Rect)> = Vec::new();
    if windows.len() == 0 {
        return slots;
    }
    proof {
        lemma_scaled_bounds(CARD_CONTENT_PADDING as int, dpi as int);
        lemma_scaled_bounds(THUMB_ICON_SIZE as int, dpi as int);
        lemma_scaled_bounds(THUMB_GAP as int, dpi as int);
    }
    let pad = scaled(CARD_CONTENT_PADDING, dpi) as i64;
    let icon = scaled(THUMB_ICON_SIZE, dpi) as i64;
    let gap = scaled(THUMB_GAP, dpi) as i64;
    let n = windows.len() as i64;
    let content_left = card.left as i64 + pad;
    let content_top = card.top as i64 + pad;
    let raw_w = (card.right as i64 - pad) - content_left;
    let raw_h = (card.bottom as i64 - pad) - content_top;
    let content_w: i64 = if raw_w > 1 { raw_w } else { 1 };
    let content_h: i64 = if raw_h > 1 { raw_h } else { 1 };
    let cols = ceil_sqrt(n);
    let rows: i64 = (n + cols - 1) / cols;
    assert(rows >= 1) by (nonlinear_arith)
        requires
            rows == (n + cols - 1) as int / cols as int,
            1 <= cols,
            1 <= n,
    ;
    let cell_w: i64 = content_w / cols;
    let cell_h: i64 = content_h / rows;
    assert(cell_w <= content_w && cell_h <= content_h) by (nonlinear_arith)
        requires
            cell_w == content_w as int / cols as int,
            cell_h == content_h as int / rows as int,
            1 <= cols,
            1 <= rows,
            1 <= content_w,
            1 <= content_h,
    ;
    let band = icon / 2;
    let slot_w: i64 = if cell_w - gap > 1 { cell_w - gap } else { 1 };
    let slot_h: i64 = if cell_h - gap - band > 1 { cell_h - gap - band } else { 1 };
    assert(grid_cols(n as int) == cols && grid_cell_w(card, dpi as int, n as int) == cell_w);
    assert(grid_cell_h(card, dpi as int, n as int) == cell_h);
    assert(grid_slot_w(card, dpi as int, n as int) == slot_w && grid_slot_h(card, dpi as int, n as int) == slot_h);
    let mut i: usize = 0;
    while i < windows.len()
        invariant
            i <= windows@.len(),
            n == windows@.len(),
            1 <= cols <= n,
            n <= MAX_GRID_WINDOWS,
            grid_cols(n as int) == cols,
            grid_cell_w(card, dpi as int, n as int) == cell_w,
            grid_cell_h(card, dpi as int, n as int) == cell_h,
            grid_slot_w(card, dpi as int, n as int) == slot_w,
            grid_slot_h(card, dpi as int, n as int) == slot_h,
            grid_band(dpi as int) == band,
            grid_icon(dpi as int) == icon,
            card.left + grid_pad(dpi as int) == content_left,
            card.top + grid_pad(dpi as int) == content_top,
            0 <= cell_w <= 3_000_000,
            0 <= cell_h <= 3_000_000,
            1 <= slot_w <= 3_000_000,
            1 <= slot_h <= 3_000_000,
            0 <= icon <= 3000,
            -2_000_000 <= content_left <= 2_000_000,
            -2_000_000 <= content_top <= 2_000_000,
            slots@.len() == i,
            forall|j: int|
                0 <= j < i ==> #[trigger] slots@[j] == grid_slot(card, dpi as int, n as int, j, windows@[j]),
        decreases windows.len() - i,
    {
        let win = windows[i];
        let raw_sw = win.right as i64 - win.left as i64;
        let raw_sh = win.bottom as i64 - win.top as i64;
        let src_w: i64 = if raw_sw > 1 { raw_sw } else { 1 };
        let src_h: i64 = if raw_sh > 1 { raw_sh } else { 1 };
        let (fit_w, fit_h) = fit(slot_w, slot_h, src_w, src_h);
        let ii = i as i64;
        let col = ii % cols;
        let row = ii / cols;
        proof {
            assert(0 <= col < cols && 0 <= row <= ii) by (nonlinear_arith)
                requires
                    col == ii as int % cols as int,
                    row == ii as int / cols as int,
                    1 <= cols,
                    0 <= ii,
            ;
            lemma_mul_bounds(col as int, cell_w as int, 65_536, 3_000_000);
            lemma_mul_bounds(row as int, cell_h as int, 65_536, 3_000_000);
        }
        let cell_left = content_left + col * cell_w;
        let cell_top = content_top + row * cell_h;
        let thumb_left = cell_left + (cell_w - fit_w) / 2;
        let thumb_top = cell_top + (cell_h - band - fit_h) / 2;
        let icon_left = thumb_left + (fit_w - icon) / 2;
        let icon_top = thumb_top + fit_h - icon / 2;
        let thumb = Rect {
            left: thumb_left as i32,
            top: thumb_top as i32,
            right: (thumb_left + fit_w) as i32,
            bottom: (thumb_top + fit_h) as i32,
        };
        let badge = Rect {
            left: icon_left as i32,
            top: icon_top as i32,
            right: (icon_left + icon) as i32,
            bottom: (icon_top + icon) as i32,
        };
        proof {
            assert(i as int % cols as int == col);
            assert(i as int / cols as int == row);
        }
        slots.push((thumb, badge));
        i += 1;
    }
    slots
}

} // verus!
