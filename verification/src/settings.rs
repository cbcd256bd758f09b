//! The settings window: its left-hand nav list, the owner-drawn widgets'
//! hit-tests, each page's control rects and what a click on them changes,
//! and the window's own placement and content rects. The settings window
//! is laid out in unscaled pixels.

use vstd::prelude::*;
use crate::geometry::{div_trunc, Rect};
use crate::text::str_eq;

verus! {

/// Nav entries, top to bottom.
pub const NAV_ITEM_COUNT: usize = 5;
/// Height of one nav entry.
pub const NAV_ITEM_HEIGHT: i32 = 44;
/// Width of the nav rail.
pub const NAV_WIDTH: i32 = 180;
/// Height of the page-title band.
pub const HEADER_HEIGHT: i32 = 60;
/// Gap between the content area's edges and the page card.
pub const PAGE_MARGIN: i32 = 20;
/// The settings window's size.
pub const WINDOW_WIDTH: i32 = 780;
pub const WINDOW_HEIGHT: i32 = 520 + HEADER_HEIGHT + PAGE_MARGIN * 2;

/// The nav labels, in order.
pub fn nav_items() -> (r: [&'static str; 5])
    ensures
        r@.len() == NAV_ITEM_COUNT,
        r@[0]@ == "Home"@,
        r@[1]@ == "Dock"@,
        r@[2]@ == "Top Bar"@,
        r@[3]@ == "Overview"@,
        r@[4]@ == "Input"@,
{
    ["Home", "Dock", "Top Bar", "Overview", "Input"]
}

/// The `i`-th nav entry's rect.
pub open spec fn nav_rect(i: int) -> Rect {
    Rect {
        left: 0,
        top: (i * NAV_ITEM_HEIGHT) as i32,
        right: NAV_WIDTH,
        bottom: ((i + 1) * NAV_ITEM_HEIGHT) as i32,
    }
}

/// One rect per nav entry, top to bottom, each `NAV_ITEM_HEIGHT` tall and
/// `NAV_WIDTH` wide, so painting and hit-testing always agree.
pub fn nav_layout() -> (r: Vec<Rect>)
    ensures
        r@.len() == NAV_ITEM_COUNT,
        forall|i: int| 0 <= i < NAV_ITEM_COUNT ==> #[trigger] r@[i] == nav_rect(i),
{
    let mut r: Vec<Rect> = Vec::new();
    let mut i: i32 = 0;
    while i < 5
        invariant
            0 <= i <= 5,
            r@.len() == i,
            forall|j: int| 0 <= j < i ==> #[trigger] r@[j] == nav_rect(j),
        decreases 5 - i,
    {
        r.push(Rect { left: 0, top: i * NAV_ITEM_HEIGHT, right: NAV_WIDTH, bottom: (i + 1) * NAV_ITEM_HEIGHT });
        i += 1;
    }
    r
}

/// Which nav entry `(x, y)` falls on, if any.
pub fn nav_hit_test(x: i32, y: i32) -> (r: Option<usize>)
    ensures
        (x < 0 || x >= NAV_WIDTH) ==> r is None,
        (0 <= x < NAV_WIDTH) ==> match r {
            Some(i) => i < NAV_ITEM_COUNT && nav_rect(i as int).top <= y < nav_rect(i as int).bottom,
            None => forall|i: int| 0 <= i < NAV_ITEM_COUNT ==> !(#[trigger] nav_rect(i).top <= y < nav_rect(i).bottom),
        },
{
    if x < 0 || x >= NAV_WIDTH {
        return None;
    }
    let layout = nav_layout();
    let mut i: usize = 0;
    while i < layout.len()
        invariant
            0 <= x < NAV_WIDTH,
            layout@.len() == NAV_ITEM_COUNT,
            forall|k: int| 0 <= k < NAV_ITEM_COUNT ==> #[trigger] layout@[k] == nav_rect(k),
            i <= NAV_ITEM_COUNT,
            forall|j: int| 0 <= j < i ==> !(#[trigger] nav_rect(j).top <= y < nav_rect(j).bottom),
        decreases layout.len() - i,
    {
        if y >= layout[i].top && y < layout[i].bottom {
            return Some(i);
        }
        i += 1;
    }
    None
}

/// A toggle switch's hit-test: inside its rect.
pub fn hit_toggle(rect: Rect, x: i32, y: i32) -> (r: bool)
    ensures
        r == rect.has_point(x as int, y as int),
{
    x >= rect.left && x < rect.right && y >= rect.top && y < rect.bottom
}

/// The segment of an `n`-way segmented control that `x` falls in.
pub open spec fn segment_of(rect: Rect, n: int, x: int) -> int {
    let k = if n > 1 { n } else { 1 };
    let seg_w = div_trunc(rect.right - rect.left, k);
    let s = div_trunc(x - rect.left, seg_w);
    if s < 0 { 0 } else if s > k - 1 { k - 1 } else { s }
}

/// Which segment of a segmented control with `options` a click at `(x, y)`
/// lands on: equal-width segments, the last absorbing any remainder.
pub fn segmented_hit(rect: Rect, options: &[&str], x: i32, y: i32) -> (r: Option<usize>)
    requires
        options@.len() <= 1024,
        rect.has_point(x as int, y as int) ==> div_trunc(
            rect.right - rect.left,
            if options@.len() > 1 { options@.len() as int } else { 1 },
        ) != 0,
    ensures
        !rect.has_point(x as int, y as int) ==> r is None,
        rect.has_point(x as int, y as int) ==> r == Some(
            segment_of(rect, options@.len() as int, x as int) as usize,
        ),
{
    if y < rect.top || y >= rect.bottom || x < rect.left || x >= rect.right {
        return None;
    }
    let n: i64 = if options.len() > 1 { options.len() as i64 } else { 1 };
    let seg_w: i64 = ((rect.right as i64) - (rect.left as i64)) / n;
    let s: i64 = ((x as i64) - (rect.left as i64)) / seg_w;
    let c: i64 = if s < 0 { 0 } else if s > n - 1 { n - 1 } else { s };
    Some(c as usize)
}

/// Where a slider with range `[lo, hi]` lands for a click at `x`: the
/// fraction of the track left of `x`, clamped to `[0, 1]`, mapped onto the
/// range and rounded to the nearest whole value (halves up).
pub open spec fn slider_value(rect: Rect, x: int, lo: int, hi: int) -> int {
    let w = if rect.right - rect.left > 1 { rect.right - rect.left } else { 1 };
    let d = if x - rect.left < 0 { 0 } else if x - rect.left > w { w } else { x - rect.left };
    (2 * (lo * w + (hi - lo) * d) + w) / (2 * w)
}

/// Integral slider value at `x` (see [`slider_value`]).
pub fn slider_value_at(rect: Rect, x: i32, lo: u32, hi: u32) -> (v: u32)
    requires
        -2_000_000 <= rect.left <= 2_000_000,
        -2_000_000 <= rect.right <= 2_000_000,
        -2_000_000 <= x <= 2_000_000,
        lo <= hi <= 1_000,
    ensures
        v == slider_value(rect, x as int, lo as int, hi as int),
        lo <= v <= hi,
{
    let w: i64 = if (rect.right as i64) - (rect.left as i64) > 1 { (rect.right as i64) - (rect.left as i64) } else { 1 };
    let raw: i64 = (x as i64) - (rect.left as i64);
    let d: i64 = if raw < 0 { 0 } else if raw > w { w } else { raw };
    proof {
        crate::geometry::lemma_mul_bounds(lo as int, w as int, 1000, 4_000_000);
        crate::geometry::lemma_mul_bounds((hi - lo) as int, d as int, 1000, 4_000_000);
    }
    let num: i64 = 2 * ((lo as i64) * w + ((hi - lo) as i64) * d) + w;
    let v: i64 = num / (2 * w);
    assert(lo <= v <= hi) by (nonlinear_arith)
        requires
            v == (2 * (lo * w + (hi - lo) * d) + w) / (2 * w),
            1 <= w,
            0 <= d <= w,
            lo <= hi,
    ;
    v as u32
}

/// A slider's click band: the rect widened 8 px above and below.
pub open spec fn in_slider_band(r: Rect, x: int, y: int) -> bool {
    r.top - 8 <= y < r.bottom + 8 && r.left <= x < r.right
}

/// Rect arithmetic on a page's content rect stays within `i32`.
pub open spec fn content_ok(c: Rect) -> bool {
    -1_000_000 <= c.left <= 1_000_000 && -1_000_000 <= c.top <= 1_000_000 && -1_000_000 <= c.right
        <= 1_000_000 && -1_000_000 <= c.bottom <= 1_000_000
}

/// Inner padding of every page.
pub const PADDING: i32 = 24;
/// Row pitch of every page.
pub const ROW_HEIGHT: i32 = 48;
/// Width of sliders and segmented controls.
pub const CONTROL_WIDTH: i32 = 320;
/// Toggle switch size.
pub const TOGGLE_WIDTH: i32 = 44;
pub const TOGGLE_HEIGHT: i32 = 24;

/// A control at row `row` of a page: `width` wide, `height` tall.
pub open spec fn row_rect(c: Rect, row: int, width: int, height: int) -> Rect {
    Rect {
        left: (c.left + PADDING) as i32,
        top: (c.top + PADDING + ROW_HEIGHT * row) as i32,
        right: (c.left + PADDING + width) as i32,
        bottom: (c.top + PADDING + ROW_HEIGHT * row + height) as i32,
    }
}

/// The control rect at `row`, `width` by `height`.
pub fn control_rect(c: Rect, row: i32, width: i32, height: i32) -> (r: Rect)
    requires
        content_ok(c),
        0 <= row <= 100,
        0 <= width <= 10_000,
        0 <= height <= 10_000,
    ensures
        r == row_rect(c, row as int, width as int, height as int),
{
    Rect {
        left: c.left + PADDING,
        top: c.top + PADDING + ROW_HEIGHT * row,
        right: c.left + PADDING + width,
        bottom: c.top + PADDING + ROW_HEIGHT * row + height,
    }
}

/// Accessibility & privacy page: high-contrast palette and redaction of
/// window titles from diagnostics bundles.
pub struct AccessibilityPage;

/// A change the accessibility page asks for.
#[derive(Clone, Copy, Debug, PartialEq, Eq, Structural)]
pub enum AccessibilityEdit {
    ToggleHighContrast,
    ToggleRedactTitles,
}

impl AccessibilityPage {
    pub fn new() -> Self {
        AccessibilityPage
    }

    /// The high-contrast toggle, on the first row.
    pub fn high_contrast_toggle_rect(&self, c: Rect) -> (r: Rect)
        requires
            content_ok(c),
        ensures
            r == row_rect(c, 1, TOGGLE_WIDTH as int, TOGGLE_HEIGHT as int),
    {
        control_rect(c, 1, TOGGLE_WIDTH, TOGGLE_HEIGHT)
    }

    /// The redact-window-titles toggle, on the third row.
    pub fn redact_titles_toggle_rect(&self, c: Rect) -> (r: Rect)
        requires
            content_ok(c),
        ensures
            r == row_rect(c, 3, TOGGLE_WIDTH as int, TOGGLE_HEIGHT as int),
    {
        control_rect(c, 3, TOGGLE_WIDTH, TOGGLE_HEIGHT)
    }

    /// The toggle a click lands on, if any.
    pub fn on_click(&self, x: i32, y: i32, c: Rect) -> (r: Option<AccessibilityEdit>)
        requires
            content_ok(c),
        ensures
            row_rect(c, 1, 44, 24).has_point(x as int, y as int) ==> r == Some(AccessibilityEdit::ToggleHighContrast),
            !row_rect(c, 1, 44, 24).has_point(x as int, y as int) && row_rect(c, 3, 44, 24).has_point(
                x as int,
                y as int,
            ) ==> r == Some(AccessibilityEdit::ToggleRedactTitles),
            !row_rect(c, 1, 44, 24).has_point(x as int, y as int) && !row_rect(c, 3, 44, 24).has_point(
                x as int,
                y as int,
            ) ==> r is None,
    {
        if hit_toggle(self.high_contrast_toggle_rect(c), x, y) {
            return Some(AccessibilityEdit::ToggleHighContrast);
        }
        if hit_toggle(self.redact_titles_toggle_rect(c), x, y) {
            return Some(AccessibilityEdit::ToggleRedactTitles);
        }
        None
    }
}

/// Top bar page: height slider (24..=48 px) and blur toggle.
pub struct TopBarPage;

/// A change the top bar page asks for.
#[derive(Clone, Copy, Debug, PartialEq, Eq, Structural)]
pub enum TopBarEdit {
    SetHeight(u32),
    ToggleBlur,
}

impl TopBarPage {
    pub fn new() -> Self {
        TopBarPage
    }

    /// The bar-height slider, on the first row.
    pub fn height_slider_rect(&self, c: Rect) -> (r: Rect)
        requires
            content_ok(c),
        ensures
            r == row_rect(c, 1, CONTROL_WIDTH as int, 24),
    {
        control_rect(c, 1, CONTROL_WIDTH, 24)
    }

    /// The blur toggle.
    pub fn blur_toggle_rect(&self, c: Rect) -> (r: Rect)
        requires
            content_ok(c),
        ensures
            r == row_rect(c, 3, TOGGLE_WIDTH as int, TOGGLE_HEIGHT as int),
    {
        control_rect(c, 3, TOGGLE_WIDTH, TOGGLE_HEIGHT)
    }

    /// A click in the slider's band sets the height; a click on the blur
    /// toggle flips it.
    pub fn on_click(&self, x: i32, y: i32, c: Rect) -> (r: Option<TopBarEdit>)
        requires
            content_ok(c),
            -1_000_000 <= x <= 1_000_000,
        ensures
            in_slider_band(row_rect(c, 1, 320, 24), x as int, y as int) ==> r == Some(
                TopBarEdit::SetHeight(slider_value(row_rect(c, 1, 320, 24), x as int, 24, 48) as u32),
            ),
            !in_slider_band(row_rect(c, 1, 320, 24), x as int, y as int) && row_rect(c, 3, 44, 24).has_point(
                x as int,
                y as int,
            ) ==> r == Some(TopBarEdit::ToggleBlur),
            !in_slider_band(row_rect(c, 1, 320, 24), x as int, y as int) && !row_rect(c, 3, 44, 24).has_point(
                x as int,
                y as int,
            ) ==> r is None,
    {
        let slider = self.height_slider_rect(c);
        if y >= slider.top - 8 && y < slider.bottom + 8 && x >= slider.left && x < slider.right {
            return Some(TopBarEdit::SetHeight(slider_value_at(slider, x, 24, 48)));
        }
        if hit_toggle(self.blur_toggle_rect(c), x, y) {
            return Some(TopBarEdit::ToggleBlur);
        }
        None
    }
}

/// Dock page: alignment, icon size (32..=64 px) and visibility mode.
pub struct DockPage;

/// Dock alignments, left to right in the segmented control.
pub const ALIGNMENT_OPTIONS: [&'static str; 3] = ["left", "center", "right"];
/// Dock visibility modes.
pub const MODE_OPTIONS: [&'static str; 3] = ["overview", "always", "autohide"];

/// A change the dock page asks for; indices are into `ALIGNMENT_OPTIONS`
/// and `MODE_OPTIONS`.
#[derive(Clone, Copy, Debug, PartialEq, Eq, Structural)]
pub enum DockEdit {
    SetAlignment(usize),
    SetIconSize(u32),
    SetMode(usize),
}

impl DockPage {
    pub fn new() -> Self {
        DockPage
    }

    /// The alignment segmented control, on the first row.
    pub fn alignment_rect(&self, c: Rect) -> (r: Rect)
        requires
            content_ok(c),
        ensures
            r == row_rect(c, 1, CONTROL_WIDTH as int, 32),
    {
        control_rect(c, 1, CONTROL_WIDTH, 32)
    }

    /// The icon-size slider, on the third row.
    pub fn icon_size_rect(&self, c: Rect) -> (r: Rect)
        requires
            content_ok(c),
        ensures
            r == row_rect(c, 3, CONTROL_WIDTH as int, 24),
    {
        control_rect(c, 3, CONTROL_WIDTH, 24)
    }

    /// The visibility-mode segmented control, on the fifth row.
    pub fn mode_rect(&self, c: Rect) -> (r: Rect)
        requires
            content_ok(c),
        ensures
            r == row_rect(c, 5, CONTROL_WIDTH as int, 32),
    {
        control_rect(c, 5, CONTROL_WIDTH, 32)
    }

    /// The alignment segment, the icon-size slider band, or the mode
    /// segment under the click, checked in that order.
    pub fn on_click(&self, x: i32, y: i32, c: Rect) -> (r: Option<DockEdit>)
        requires
            content_ok(c),
            -1_000_000 <= x <= 1_000_000,
        ensures
            ({
                let a = row_rect(c, 1, 320, 32);
                let s = row_rect(c, 3, 320, 24);
                let m = row_rect(c, 5, 320, 32);
                &&& a.has_point(x as int, y as int) ==> r == Some(
                    DockEdit::SetAlignment(segment_of(a, 3, x as int) as usize),
                )
                &&& !a.has_point(x as int, y as int) && in_slider_band(s, x as int, y as int) ==> r == Some(
                    DockEdit::SetIconSize(slider_value(s, x as int, 32, 64) as u32),
                )
                &&& !a.has_point(x as int, y as int) && !in_slider_band(s, x as int, y as int)
                    && m.has_point(x as int, y as int) ==> r == Some(
                    DockEdit::SetMode(segment_of(m, 3, x as int) as usize),
                )
                &&& !a.has_point(x as int, y as int) && !in_slider_band(s, x as int, y as int)
                    && !m.has_point(x as int, y as int) ==> r is None
            }),
    {
        let options: [&str; 3] = ALIGNMENT_OPTIONS;
        assert(options@.len() == 3);
        assert(div_trunc(320, 3) != 0);
        if let Some(i) = segmented_hit(self.alignment_rect(c), &options, x, y) {
            return Some(DockEdit::SetAlignment(i));
        }
        let slider = self.icon_size_rect(c);
        if y >= slider.top - 8 && y < slider.bottom + 8 && x >= slider.left && x < slider.right {
            return Some(DockEdit::SetIconSize(slider_value_at(slider, x, 32, 64)));
        }
        let modes: [&str; 3] = MODE_OPTIONS;
        assert(modes@.len() == 3);
        if let Some(i) = segmented_hit(self.mode_rect(c), &modes, x, y) {
            return Some(DockEdit::SetMode(i));
        }
        None
    }
}

/// Overview page: blur, reduced motion, and the animation-speed slider.
pub struct OverviewPage;

/// A change the overview page asks for. The speed slider's value is
/// fractional, so the click position is handed back for the caller to map.
#[derive(Clone, Copy, Debug, PartialEq, Eq, Structural)]
pub enum OverviewEdit {
    ToggleBlur,
    ToggleReducedMotion,
    SpeedSliderAt(i32),
}

impl OverviewPage {
    pub fn new() -> Self {
        OverviewPage
    }

    /// The blur toggle.
    pub fn blur_toggle_rect(&self, c: Rect) -> (r: Rect)
        requires
            content_ok(c),
        ensures
            r == row_rect(c, 1, TOGGLE_WIDTH as int, TOGGLE_HEIGHT as int),
    {
        control_rect(c, 1, TOGGLE_WIDTH, TOGGLE_HEIGHT)
    }

    /// The reduced-motion toggle.
    pub fn reduced_motion_toggle_rect(&self, c: Rect) -> (r: Rect)
        requires
            content_ok(c),
        ensures
            r == row_rect(c, 3, TOGGLE_WIDTH as int, TOGGLE_HEIGHT as int),
    {
        control_rect(c, 3, TOGGLE_WIDTH, TOGGLE_HEIGHT)
    }

    /// The animation-speed slider.
    pub fn speed_slider_rect(&self, c: Rect) -> (r: Rect)
        requires
            content_ok(c),
        ensures
            r == row_rect(c, 5, CONTROL_WIDTH as int, 24),
    {
        control_rect(c, 5, CONTROL_WIDTH, 24)
    }

    /// Toggles first; the speed slider ignores clicks while reduced motion
    /// is on.
    pub fn on_click(&self, x: i32, y: i32, c: Rect, reduced_motion: bool) -> (r: Option<OverviewEdit>)
        requires
            content_ok(c),
        ensures
            ({
                let b = row_rect(c, 1, 44, 24);
                let m = row_rect(c, 3, 44, 24);
                let s = row_rect(c, 5, 320, 24);
                &&& b.has_point(x as int, y as int) ==> r == Some(OverviewEdit::ToggleBlur)
                &&& !b.has_point(x as int, y as int) && m.has_point(x as int, y as int) ==> r == Some(
                    OverviewEdit::ToggleReducedMotion,
                )
                &&& !b.has_point(x as int, y as int) && !m.has_point(x as int, y as int) ==> r == (if !reduced_motion
                    && in_slider_band(s, x as int, y as int) {
                    Some(OverviewEdit::SpeedSliderAt(x))
                } else {
                    None
                })
            }),
    {
        if hit_toggle(self.blur_toggle_rect(c), x, y) {
            return Some(OverviewEdit::ToggleBlur);
        }
        if hit_toggle(self.reduced_motion_toggle_rect(c), x, y) {
            return Some(OverviewEdit::ToggleReducedMotion);
        }
        if reduced_motion {
            return None;
        }
        let slider = self.speed_slider_rect(c);
        if y >= slider.top - 8 && y < slider.bottom + 8 && x >= slider.left && x < slider.right {
            return Some(OverviewEdit::SpeedSliderAt(x));
        }
        None
    }
}

/// Input page: the overview / move-resize modifier and each hot corner's action.
pub struct InputPage;

/// Modifier choices for the overview / move-resize trigger.
pub const MODIFIER_OPTIONS: [&'static str; 3] = ["Super", "Alt", "CtrlAlt"];
/// Hot-corner actions.
pub const CORNER_ACTION_OPTIONS: [&'static str; 2] = ["none", "activities"];
/// Hot corners, in the order their rows appear.
pub const CORNERS: [&'static str; 4] = ["top_left", "top_right", "bottom_left", "bottom_right"];

/// A change the input page asks for; indices into `MODIFIER_OPTIONS`,
/// `CORNERS` and `CORNER_ACTION_OPTIONS`.
#[derive(Clone, Copy, Debug, PartialEq, Eq, Structural)]
pub enum InputEdit {
    SetModifier(usize),
    SetCornerAction { corner: usize, action: usize },
}

impl InputPage {
    pub fn new() -> Self {
        InputPage
    }

    /// The modifier segmented control, on the first row.
    pub fn modifier_rect(&self, c: Rect) -> (r: Rect)
        requires
            content_ok(c),
        ensures
            r == row_rect(c, 1, CONTROL_WIDTH as int, 32),
    {
        control_rect(c, 1, CONTROL_WIDTH, 32)
    }

    /// Corner `index`'s label row: each corner takes two rows, a label and
    /// then its control, so no control row meets the next label.
    pub fn corner_label_rect(&self, c: Rect, index: usize) -> (r: Rect)
        requires
            content_ok(c),
            index < 4,
        ensures
            r == (Rect {
                left: (c.left + PADDING) as i32,
                top: (c.top + PADDING + ROW_HEIGHT * (2 + 2 * index)) as i32,
                right: (c.right - PADDING) as i32,
                bottom: (c.top + PADDING + ROW_HEIGHT * (2 + 2 * index) + 24) as i32,
            }),
    {
        let row: i32 = 2 + 2 * (index as i32);
        Rect {
            left: c.left + PADDING,
            top: c.top + PADDING + ROW_HEIGHT * row,
            right: c.right - PADDING,
            bottom: c.top + PADDING + ROW_HEIGHT * row + 24,
        }
    }

    /// Corner `index`'s segmented control.
    pub fn corner_rect(&self, c: Rect, index: usize) -> (r: Rect)
        requires
            content_ok(c),
            index < 4,
        ensures
            r == row_rect(c, 3 + 2 * index, CONTROL_WIDTH as int, 32),
    {
        control_rect(c, 3 + 2 * (index as i32), CONTROL_WIDTH, 32)
    }

    /// The modifier segment, else the first corner control under the click.
    pub fn on_click(&self, x: i32, y: i32, c: Rect) -> (r: Option<InputEdit>)
        requires
            content_ok(c),
        ensures
            row_rect(c, 1, 320, 32).has_point(x as int, y as int) ==> r == Some(
                InputEdit::SetModifier(segment_of(row_rect(c, 1, 320, 32), 3, x as int) as usize),
            ),
            !row_rect(c, 1, 320, 32).has_point(x as int, y as int) ==> match r {
                Some(InputEdit::SetCornerAction { corner, action }) => corner < 4 && row_rect(
                    c,
                    3 + 2 * corner,
                    320,
                    32,
                ).has_point(x as int, y as int) && action == segment_of(
                    row_rect(c, 3 + 2 * corner, 320, 32),
                    2,
                    x as int,
                ) && forall|k: int|
                    0 <= k < corner ==> !#[trigger] row_rect(c, 3 + 2 * k, 320, 32).has_point(x as int, y as int),
                Some(InputEdit::SetModifier(_)) => false,
                None => forall|k: int|
                    0 <= k < 4 ==> !#[trigger] row_rect(c, 3 + 2 * k, 320, 32).has_point(x as int, y as int),
            },
    {
        let modifiers: [&str; 3] = MODIFIER_OPTIONS;
        assert(modifiers@.len() == 3);
        assert(div_trunc(320, 3) != 0);
        if let Some(i) = segmented_hit(self.modifier_rect(c), &modifiers, x, y) {
            return Some(InputEdit::SetModifier(i));
        }
        let actions: [&str; 2] = CORNER_ACTION_OPTIONS;
        assert(actions@.len() == 2);
        assert(div_trunc(320, 2) != 0);
        let mut k: usize = 0;
        while k < 4
            invariant
                content_ok(c),
                actions@.len() == 2,
                k <= 4,
                forall|j: int| 0 <= j < k ==> !#[trigger] row_rect(c, 3 + 2 * j, 320, 32).has_point(x as int, y as int),
            decreases 4 - k,
        {
            if let Some(a) = segmented_hit(self.corner_rect(c, k), &actions, x, y) {
                return Some(InputEdit::SetCornerAction { corner: k, action: a });
            }
            k += 1;
        }
        None
    }
}

/// A hot corner's display name; unknown names are shown as they are.
pub fn corner_display_name(corner: &str) -> (r: String)
    ensures
        corner@ == "top_left"@ ==> r@ == "Top-left corner"@,
        corner@ == "top_right"@ ==> r@ == "Top-right corner"@,
        corner@ == "bottom_left"@ ==> r@ == "Bottom-left corner"@,
        corner@ == "bottom_right"@ ==> r@ == "Bottom-right corner"@,
        corner@ != "top_left"@ && corner@ != "top_right"@ && corner@ != "bottom_left"@ && corner@
            != "bottom_right"@ ==> r@ == corner@,
{
    proof {
        reveal_strlit("top_left");
        reveal_strlit("top_right");
        reveal_strlit("bottom_left");
        reveal_strlit("bottom_right");
        assert("top_left"@.len() == 8);
        assert("top_right"@.len() == 9);
        assert("bottom_left"@.len() == 11);
        assert("bottom_right"@.len() == 12);
    }
    if str_eq(corner, "top_left") {
        String::from_str("Top-left corner")
    } else if str_eq(corner, "top_right") {
        String::from_str("Top-right corner")
    } else if str_eq(corner, "bottom_left") {
        String::from_str("Bottom-left corner")
    } else if str_eq(corner, "bottom_right") {
        String::from_str("Bottom-right corner")
    } else {
        String::from_str(corner)
    }
}

/// Home page row pitch, button and toggle sizes.
pub const HOME_ROW_HEIGHT: i32 = 32;
pub const BUTTON_WIDTH: i32 = 220;
pub const BUTTON_HEIGHT: i32 = 36;

/// Home / status page: health, per-process lines, the Restore-Explorer /
/// Start-GroveShell button and the Start-with-Windows toggle.
pub struct HomePage;

/// What a click on the home page asks for.
#[derive(Clone, Copy, Debug, PartialEq, Eq, Structural)]
pub enum HomeAction {
    /// Stop GroveShell (restoring Explorer) if running, else start it.
    ToggleGroveShell,
    /// Flip "Start with Windows" (and record it in the config).
    ToggleAutostart,
}

impl HomePage {
    pub fn new() -> Self {
        HomePage
    }

    /// The Start/Stop GroveShell button, below the status lines.
    pub fn restore_button_rect(&self, c: Rect) -> (r: Rect)
        requires
            content_ok(c),
        ensures
            r == (Rect {
                left: (c.left + PADDING) as i32,
                top: (c.top + PADDING + HOME_ROW_HEIGHT * 5) as i32,
                right: (c.left + PADDING + BUTTON_WIDTH) as i32,
                bottom: (c.top + PADDING + HOME_ROW_HEIGHT * 5 + BUTTON_HEIGHT) as i32,
            }),
    {
        Rect {
            left: c.left + PADDING,
            top: c.top + PADDING + HOME_ROW_HEIGHT * 5,
            right: c.left + PADDING + BUTTON_WIDTH,
            bottom: c.top + PADDING + HOME_ROW_HEIGHT * 5 + BUTTON_HEIGHT,
        }
    }

    /// The Start-with-Windows toggle, below the button.
    pub fn autostart_toggle_rect(&self, c: Rect) -> (r: Rect)
        requires
            content_ok(c),
        ensures
            r == (Rect {
                left: (c.left + PADDING) as i32,
                top: (c.top + PADDING + HOME_ROW_HEIGHT * 5 + BUTTON_HEIGHT + PADDING) as i32,
                right: (c.left + PADDING + TOGGLE_WIDTH) as i32,
                bottom: (c.top + PADDING + HOME_ROW_HEIGHT * 5 + BUTTON_HEIGHT + PADDING + TOGGLE_HEIGHT) as i32,
            }),
    {
        let button = self.restore_button_rect(c);
        Rect {
            left: c.left + PADDING,
            top: button.bottom + PADDING,
            right: c.left + PADDING + TOGGLE_WIDTH,
            bottom: button.bottom + PADDING + TOGGLE_HEIGHT,
        }
    }

    /// The button, else the toggle, under the click.
    pub fn on_click(&self, x: i32, y: i32, c: Rect) -> (r: Option<HomeAction>)
        requires
            content_ok(c),
        ensures
            self.restore_button_rect_spec(c).has_point(x as int, y as int) ==> r == Some(
                HomeAction::ToggleGroveShell,
            ),
            !self.restore_button_rect_spec(c).has_point(x as int, y as int)
                && self.autostart_toggle_rect_spec(c).has_point(x as int, y as int) ==> r == Some(
                HomeAction::ToggleAutostart,
            ),
            !self.restore_button_rect_spec(c).has_point(x as int, y as int)
                && !self.autostart_toggle_rect_spec(c).has_point(x as int, y as int) ==> r is None,
    {
        let button = self.restore_button_rect(c);
        if x >= button.left && x < button.right && y >= button.top && y < button.bottom {
            return Some(HomeAction::ToggleGroveShell);
        }
        if hit_toggle(self.autostart_toggle_rect(c), x, y) {
            return Some(HomeAction::ToggleAutostart);
        }
        None
    }

    /// The rect [`HomePage::restore_button_rect`] returns.
    pub open spec fn restore_button_rect_spec(&self, c: Rect) -> Rect {
        Rect {
            left: (c.left + PADDING) as i32,
            top: (c.top + PADDING + HOME_ROW_HEIGHT * 5) as i32,
            right: (c.left + PADDING + BUTTON_WIDTH) as i32,
            bottom: (c.top + PADDING + HOME_ROW_HEIGHT * 5 + BUTTON_HEIGHT) as i32,
        }
    }

    /// The rect [`HomePage::autostart_toggle_rect`] returns.
    pub open spec fn autostart_toggle_rect_spec(&self, c: Rect) -> Rect {
        Rect {
            left: (c.left + PADDING) as i32,
            top: (c.top + PADDING + HOME_ROW_HEIGHT * 5 + BUTTON_HEIGHT + PADDING) as i32,
            right: (c.left + PADDING + TOGGLE_WIDTH) as i32,
            bottom: (c.top + PADDING + HOME_ROW_HEIGHT * 5 + BUTTON_HEIGHT + PADDING + TOGGLE_HEIGHT) as i32,
        }
    }
}

/// The content area right of the nav rail.
pub fn content_rect(client: Rect) -> (r: Rect)
    ensures
        r == (Rect { left: NAV_WIDTH, top: 0, right: client.right, bottom: client.bottom }),
{
    Rect { left: NAV_WIDTH, top: 0, right: client.right, bottom: client.bottom }
}

/// The page-title band at the top of `content`.
pub fn header_rect(content: Rect) -> (r: Rect)
    requires
        content.top <= 1_000_000_000,
    ensures
        r == (Rect {
            left: content.left,
            top: content.top,
            right: content.right,
            bottom: (content.top + HEADER_HEIGHT) as i32,
        }),
{
    Rect { left: content.left, top: content.top, right: content.right, bottom: content.top + HEADER_HEIGHT }
}

/// The card every page paints onto: `content` below the title band, inset
/// by `PAGE_MARGIN` on every side; passed to the pages as their content rect.
pub fn card_rect(content: Rect) -> (r: Rect)
    requires
        content_ok(content),
    ensures
        r == (Rect {
            left: (content.left + PAGE_MARGIN) as i32,
            top: (content.top + HEADER_HEIGHT + PAGE_MARGIN) as i32,
            right: (content.right - PAGE_MARGIN) as i32,
            bottom: (content.bottom - PAGE_MARGIN) as i32,
        }),
{
    Rect {
        left: content.left + PAGE_MARGIN,
        top: content.top + HEADER_HEIGHT + PAGE_MARGIN,
        right: content.right - PAGE_MARGIN,
        bottom: content.bottom - PAGE_MARGIN,
    }
}

/// Where the settings window opens: centered in the work area of the
/// monitor under the cursor (pinned to its top-left when the work area is
/// smaller than the window), or at `(200, 200)` when no work area is known.
pub fn spawn_position(work: Option<Rect>) -> (r: (i32, i32))
    requires
        work matches Some(w) ==> content_ok(w),
    ensures
        work is None ==> r == (200i32, 200i32),
        work matches Some(w) ==> {
            let dw = w.right - w.left - WINDOW_WIDTH;
            let dh = w.bottom - w.top - WINDOW_HEIGHT;
            &&& r.0 == w.left + (if dw > 0 { dw } else { 0 }) / 2
            &&& r.1 == w.top + (if dh > 0 { dh } else { 0 }) / 2
        },
{
    match work {
        Some(w) => {
            let dw: i32 = w.right - w.left - WINDOW_WIDTH;
            let dh: i32 = w.bottom - w.top - WINDOW_HEIGHT;
            let x: i32 = w.left + (if dw > 0 { dw } else { 0 }) / 2;
            let y: i32 = w.top + (if dh > 0 { dh } else { 0 }) / 2;
            (x, y)
        },
        None => (200, 200),
    }
}

} // verus!
