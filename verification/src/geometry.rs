//! Rectangles, DPI scaling and monitor lookups shared by every surface.

use vstd::prelude::*;

verus! {

/// An axis-aligned rectangle in pixels, right/bottom exclusive (the Win32
/// `RECT` convention).
#[derive(Clone, Copy, Debug, PartialEq, Eq, Structural)]
pub struct Rect {
    pub left: i32,
    pub top: i32,
    pub right: i32,
    pub bottom: i32,
}

impl Rect {
    /// Whether `(x, y)` lies inside, left/top inclusive, right/bottom exclusive.
    pub open spec fn has_point(self, x: int, y: int) -> bool {
        self.left <= x < self.right && self.top <= y < self.bottom
    }

    /// Width of the rect.
    pub open spec fn width_spec(self) -> int {
        self.right - self.left
    }

    /// Height of the rect.
    pub open spec fn height_spec(self) -> int {
        self.bottom - self.top
    }

    /// Point hit-test, right/bottom exclusive.
    pub fn contains(&self, x: i32, y: i32) -> (r: bool)
        ensures
            r == self.has_point(x as int, y as int),
    {
        x >= self.left && x < self.right && y >= self.top && y < self.bottom
    }
}

/// Rust's `/` on integers: truncation toward zero (for a positive divisor).
pub open spec fn div_trunc(a: int, b: int) -> int {
    if a >= 0 {
        a / b
    } else {
        -((-a) / b)
    }
}

/// Whether an `i32` can hold `v`.
pub open spec fn fits_i32(v: int) -> bool {
    i32::MIN <= v <= i32::MAX
}

/// A 96-DPI reference length scaled to `dpi`, rounded to the nearest pixel
/// (half up for non-negative lengths).
pub open spec fn scaled_spec(v: int, dpi: int) -> int {
    div_trunc(v * dpi + 48, 96)
}

/// Scales a 96-DPI layout constant to a monitor's effective DPI.
pub fn scaled(v: i32, dpi: u32) -> (r: i32)
    requires
        dpi <= i32::MAX,
        fits_i32(v * dpi),
        fits_i32(v * dpi + 48),
    ensures
        r == scaled_spec(v as int, dpi as int),
{
    let d: i32 = dpi as i32;
    assert(v * d + 48 == v * dpi + 48);
    (v * d + 48) / 96
}

/// At the 96-DPI reference density, scaling leaves a non-negative length as it is.
pub proof fn lemma_scaled_identity_at_reference(v: int)
    requires
        v >= 0,
    ensures
        scaled_spec(v, 96) == v,
{
    assert((v * 96 + 48) / 96 == v) by (nonlinear_arith)
        requires
            v >= 0,
    ;
}

/// Scaling a non-negative length never shrinks it at or above 96 DPI, and
/// a larger DPI never gives a smaller result.
pub proof fn lemma_scaled_monotonic_in_dpi(v: int, d1: int, d2: int)
    requires
        v >= 0,
        96 <= d1 <= d2,
    ensures
        v <= scaled_spec(v, d1) <= scaled_spec(v, d2),
{
    assert(v * d1 <= v * d2) by (nonlinear_arith)
        requires
            v >= 0,
            d1 <= d2,
    ;
    assert(v * 96 <= v * d1) by (nonlinear_arith)
        requires
            v >= 0,
            96 <= d1,
    ;
    assert(v * d1 + 48 >= 0) by (nonlinear_arith)
        requires
            v >= 0,
            d1 >= 0,
    ;
    assert((v * 96 + 48) / 96 == v) by (nonlinear_arith)
        requires
            v >= 0,
    ;
    assert((v * 96 + 48) / 96 <= (v * d1 + 48) / 96) by (nonlinear_arith)
        requires
            v * 96 <= v * d1,
            v >= 0,
    ;
    assert((v * d1 + 48) / 96 <= (v * d2 + 48) / 96) by (nonlinear_arith)
        requires
            v * d1 <= v * d2,
            v * d1 + 48 >= 0,
    ;
}

/// The highest monitor density layouts are computed for (100x scaling);
/// every layout function's arithmetic stays within `i32` up to it.
pub const MAX_DPI: u32 = 9600;

/// Bounds on a scaled non-negative length, for overflow reasoning.
pub proof fn lemma_scaled_bounds(v: int, dpi: int)
    requires
        0 <= v,
        0 <= dpi <= MAX_DPI,
    ensures
        0 <= scaled_spec(v, dpi) <= 100 * v + 1,
{
    assert(0 <= v * dpi <= v * 9600) by (nonlinear_arith)
        requires
            0 <= v,
            0 <= dpi <= 9600,
    ;
    assert(0 <= (v * dpi + 48) / 96 <= 100 * v + 1) by (nonlinear_arith)
        requires
            0 <= v * dpi <= v * 9600,
            0 <= v,
    ;
}

/// `0 <= a * b <= a_max * b_max` for bounded non-negative factors.
pub proof fn lemma_mul_bounds(a: int, b: int, a_max: int, b_max: int)
    requires
        0 <= a <= a_max,
        0 <= b <= b_max,
    ensures
        0 <= a * b <= a_max * b_max,
{
    assert(0 <= a * b <= a_max * b_max) by (nonlinear_arith)
        requires
            0 <= a <= a_max,
            0 <= b <= b_max,
    ;
}

/// `rect` translated by `(dx, dy)`: every edge moves by the same delta.
pub fn shift_rect(rect: Rect, dx: i32, dy: i32) -> (r: Rect)
    requires
        fits_i32(rect.left + dx),
        fits_i32(rect.right + dx),
        fits_i32(rect.top + dy),
        fits_i32(rect.bottom + dy),
    ensures
        r.left == rect.left + dx,
        r.top == rect.top + dy,
        r.right == rect.right + dx,
        r.bottom == rect.bottom + dy,
{
    Rect { left: rect.left + dx, top: rect.top + dy, right: rect.right + dx, bottom: rect.bottom + dy }
}

/// Shifting keeps the size and shifting back restores the rectangle.
pub proof fn lemma_shift_rect_preserves_size_and_inverts(rect: Rect, dx: int, dy: int)
    ensures
        (rect.right + dx) - (rect.left + dx) == rect.width_spec(),
        (rect.bottom + dy) - (rect.top + dy) == rect.height_spec(),
        (rect.left + dx) - dx == rect.left,
        (rect.top + dy) - dy == rect.top,
{
}

} // verus!
