//! The per-monitor top bar's clickable regions: Activities, the workspace
//! dots, and (primary bar only) the clock, the status pill and the
//! settings gear. Every 96-DPI constant is grown with the configured bar
//! height (relative to the 24 px it was tuned at) before DPI scaling, so
//! painting, hover and hit-testing all agree.

use vstd::prelude::*;
use crate::geometry::{div_trunc, lemma_mul_bounds, lemma_scaled_bounds, scaled_spec, Rect, MAX_DPI};
use crate::state::BAR_HEIGHT;

verus! {

/// A 96-DPI constant grown by `bar_height / BAR_HEIGHT` (rounded, halves up).
pub open spec fn content_scaled(v: int, bar_height: int) -> int {
    (2 * v * bar_height + BAR_HEIGHT) / (2 * BAR_HEIGHT)
}

/// A bar constant at `dpi` and configured `bar_height`.
pub open spec fn bar_scaled(v: int, dpi: int, bar_height: int) -> int {
    scaled_spec(content_scaled(v, bar_height), dpi)
}

/// Inputs for which the bar arithmetic stays within `i32`.
pub open spec fn bar_inputs_ok(dpi: int, bar_height: int) -> bool {
    0 <= dpi <= MAX_DPI && 0 <= bar_height <= 1000
}

/// Scales a 96-DPI bar constant `v` (0..=1000) by the configured bar
/// height, then by `dpi`.
pub fn scaled(v: i32, dpi: u32, bar_height: i32) -> (r: i32)
    requires
        0 <= v <= 1000,
        bar_inputs_ok(dpi as int, bar_height as int),
    ensures
        r == bar_scaled(v as int, dpi as int, bar_height as int),
        0 <= r <= 100 * (v * 1000 / 24 + 1) + 1,
{
    proof {
        lemma_mul_bounds(v as int, bar_height as int, 1000, 1000);
    }
    let p: i32 = v * bar_height;
    assert(2 * v * bar_height == 2 * p) by (nonlinear_arith)
        requires
            p == v * bar_height,
    ;
    let c: i32 = (2 * p + BAR_HEIGHT) / (2 * BAR_HEIGHT);
    assert(0 <= c <= v * 1000 / 24 + 1) by (nonlinear_arith)
        requires
            c == (2 * p + 24) / 48,
            p == v * bar_height,
            0 <= v,
            0 <= bar_height <= 1000,
    ;
    proof {
        lemma_scaled_bounds(c as int, dpi as int);
        lemma_mul_bounds(c as int, dpi as int, 41668, 9600);
    }
    crate::geometry::scaled(c, dpi)
}

/// 96-DPI layout of the status pill and the settings gear.
pub const QS_PILL_HEIGHT: i32 = 20;
pub const QS_PILL_PADDING_X: i32 = 8;
pub const QS_ICON_SIZE: i32 = 15;
pub const QS_ICON_GAP: i32 = 10;
pub const QS_PILL_RADIUS: i32 = 10;
pub const QS_PILL_RIGHT_MARGIN: i32 = 10;
pub const SETTINGS_BUTTON_WIDTH: i32 = 20;
pub const SETTINGS_BUTTON_GAP: i32 = 6;
/// 96-DPI positions of the labels and the workspace dots.
pub const ACTIVITIES_LABEL_X: i32 = 8;
pub const ACTIVITIES_LABEL_WIDTH: i32 = 72;
pub const CLOCK_LABEL_WIDTH: i32 = 130;
pub const WS_DOTS_X: i32 = ACTIVITIES_LABEL_X + ACTIVITIES_LABEL_WIDTH + 8;
pub const WS_DOT_SLOT_WIDTH: i32 = 14;
pub const WS_DOT_RADIUS: i32 = 3;

/// Coordinates of a bar small enough for its arithmetic.
pub open spec fn bar_coord_ok(v: int) -> bool {
    -1_000_000 <= v <= 1_000_000
}

/// The status pill's rect.
pub open spec fn pill_spec(bar_width: int, dpi: int, bar_h: int, bh: int) -> Rect {
    let icon = bar_scaled(QS_ICON_SIZE as int, dpi, bh);
    let gap = bar_scaled(QS_ICON_GAP as int, dpi, bh);
    let pad_x = bar_scaled(QS_PILL_PADDING_X as int, dpi, bh);
    let pill_h = bar_scaled(QS_PILL_HEIGHT as int, dpi, bh);
    let pill_w = pad_x * 2 + icon * 3 + gap * 2;
    let right_margin = bar_scaled(QS_PILL_RIGHT_MARGIN as int, dpi, bh);
    let top = div_trunc(bar_h - pill_h, 2);
    Rect {
        left: (bar_width - right_margin - pill_w) as i32,
        top: top as i32,
        right: (bar_width - right_margin) as i32,
        bottom: (top + pill_h) as i32,
    }
}

/// The status pill (Wi-Fi / volume / battery glyphs) and its three icon
/// slots, right-aligned in a bar `bar_width` wide and `bar_h` tall.
pub fn qs_pill_layout(bar_width: i32, dpi: u32, bar_h: i32, bar_height: i32) -> (r: (Rect, [Rect; 3]))
    requires
        bar_inputs_ok(dpi as int, bar_height as int),
        bar_coord_ok(bar_width as int),
        bar_coord_ok(bar_h as int),
    ensures
        r.0 == pill_spec(bar_width as int, dpi as int, bar_h as int, bar_height as int),
        -2_000_000 <= r.0.left <= 2_000_000,
        forall|i: int|
            0 <= i < 3 ==> {
                let icon = bar_scaled(QS_ICON_SIZE as int, dpi as int, bar_height as int);
                let gap = bar_scaled(QS_ICON_GAP as int, dpi as int, bar_height as int);
                let pill_h = bar_scaled(QS_PILL_HEIGHT as int, dpi as int, bar_height as int);
                let left = r.0.left + bar_scaled(QS_PILL_PADDING_X as int, dpi as int, bar_height as int) + i * (
                icon + gap);
                let top = r.0.top + div_trunc(pill_h - icon, 2);
                #[trigger] r.1@[i] == (Rect {
                    left: left as i32,
                    top: top as i32,
                    right: (left + icon) as i32,
                    bottom: (top + icon) as i32,
                })
            },
{
    let icon = scaled(QS_ICON_SIZE, dpi, bar_height);
    let gap = scaled(QS_ICON_GAP, dpi, bar_height);
    let pad_x = scaled(QS_PILL_PADDING_X, dpi, bar_height);
    let pill_h = scaled(QS_PILL_HEIGHT, dpi, bar_height);
    let pill_w: i32 = pad_x * 2 + icon * 3 + gap * 2;
    let right_margin = scaled(QS_PILL_RIGHT_MARGIN, dpi, bar_height);
    let top: i32 = (bar_h - pill_h) / 2;
    let pill = Rect {
        left: bar_width - right_margin - pill_w,
        top,
        right: bar_width - right_margin,
        bottom: top + pill_h,
    };
    let icon_top: i32 = pill.top + (pill_h - icon) / 2;
    let l0: i32 = pill.left + pad_x;
    let l1: i32 = pill.left + pad_x + (icon + gap);
    let l2: i32 = pill.left + pad_x + 2 * (icon + gap);
    let slots: [Rect; 3] = [
        Rect { left: l0, top: icon_top, right: l0 + icon, bottom: icon_top + icon },
        Rect { left: l1, top: icon_top, right: l1 + icon, bottom: icon_top + icon },
        Rect { left: l2, top: icon_top, right: l2 + icon, bottom: icon_top + icon },
    ];
    assert forall|i: int| 0 <= i < 3 implies #[trigger] slots@[i] == (Rect {
        left: (pill.left + pad_x + i * (icon + gap)) as i32,
        top: icon_top,
        right: (pill.left + pad_x + i * (icon + gap) + icon) as i32,
        bottom: (icon_top + icon) as i32,
    }) by {
        if i == 0 {
            assert(0 * (icon + gap) == 0);
        } else if i == 1 {
            assert(1 * (icon + gap) == icon + gap);
        } else {
            assert(2 * (icon + gap) == 2 * icon + 2 * gap);
        }
    }
    (pill, slots)
}

/// The settings gear's rect, just left of the pill, full bar height.
pub fn settings_button_rect(pill: Rect, dpi: u32, bar_h: i32, bar_height: i32) -> (r: Rect)
    requires
        bar_inputs_ok(dpi as int, bar_height as int),
        -2_000_000 <= pill.left <= 2_000_000,
    ensures
        ({
            let w = bar_scaled(SETTINGS_BUTTON_WIDTH as int, dpi as int, bar_height as int);
            let gap = bar_scaled(SETTINGS_BUTTON_GAP as int, dpi as int, bar_height as int);
            &&& r.left == pill.left - gap - w
            &&& r.top == 0
            &&& r.right == pill.left - gap
            &&& r.bottom == bar_h
        }),
{
    let w = scaled(SETTINGS_BUTTON_WIDTH, dpi, bar_height);
    let gap = scaled(SETTINGS_BUTTON_GAP, dpi, bar_height);
    Rect { left: pill.left - gap - w, top: 0, right: pill.left - gap, bottom: bar_h }
}

/// A bar's clickable regions.
#[derive(Clone, Copy, PartialEq, Eq, Debug, Structural)]
pub enum BarRegion {
    Activities,
    Dots,
    Clock,
    QsPill,
    SettingsGear,
}

/// Whether `lo <= x < hi`.
pub open spec fn in_span(x: int, lo: int, hi: int) -> bool {
    lo <= x < hi
}

/// The region under `x`, checked in paint order; the clock, pill and gear
/// exist on the primary bar only.
pub open spec fn region_at_spec(
    x: int,
    dpi: int,
    bar_width: int,
    bar_h: int,
    is_primary: bool,
    workspace_count: int,
    bh: int,
) -> Option<BarRegion> {
    let dots_x = bar_scaled(WS_DOTS_X as int, dpi, bh);
    let clock_w = bar_scaled(CLOCK_LABEL_WIDTH as int, dpi, bh);
    let clock_x = div_trunc(bar_width, 2) - div_trunc(clock_w, 2);
    let pill = pill_spec(bar_width, dpi, bar_h, bh);
    let gear_w = bar_scaled(SETTINGS_BUTTON_WIDTH as int, dpi, bh);
    let gear_gap = bar_scaled(SETTINGS_BUTTON_GAP as int, dpi, bh);
    if in_span(
        x,
        bar_scaled(ACTIVITIES_LABEL_X as int, dpi, bh),
        bar_scaled((ACTIVITIES_LABEL_X + ACTIVITIES_LABEL_WIDTH) as int, dpi, bh),
    ) {
        Some(BarRegion::Activities)
    } else if in_span(x, dots_x, dots_x + workspace_count * bar_scaled(WS_DOT_SLOT_WIDTH as int, dpi, bh)) {
        Some(BarRegion::Dots)
    } else if !is_primary {
        None
    } else if in_span(x, clock_x, clock_x + clock_w) {
        Some(BarRegion::Clock)
    } else if in_span(x, pill.left as int, pill.right as int) {
        Some(BarRegion::QsPill)
    } else if in_span(x, pill.left - gear_gap - gear_w, pill.left - gear_gap) {
        Some(BarRegion::SettingsGear)
    } else {
        None
    }
}

/// Which clickable region (if any) `x` falls under on a bar `bar_width`
/// wide and `bar_h` tall with `workspace_count` workspaces, at `dpi` and
/// configured height `bar_height`.
pub fn region_at(
    x: i32,
    dpi: u32,
    bar_width: i32,
    bar_h: i32,
    is_primary: bool,
    workspace_count: usize,
    bar_height: i32,
) -> (r: Option<BarRegion>)
    requires
        bar_inputs_ok(dpi as int, bar_height as int),
        bar_coord_ok(bar_width as int),
        bar_coord_ok(bar_h as int),
    ensures
        r == region_at_spec(
            x as int,
            dpi as int,
            bar_width as int,
            bar_h as int,
            is_primary,
            workspace_count as int,
            bar_height as int,
        ),
{
    let a0 = scaled(ACTIVITIES_LABEL_X, dpi, bar_height);
    let a1 = scaled(ACTIVITIES_LABEL_X + ACTIVITIES_LABEL_WIDTH, dpi, bar_height);
    if a0 <= x && x < a1 {
        return Some(BarRegion::Activities);
    }
    let dots_x = scaled(WS_DOTS_X, dpi, bar_height);
    let dot_slot_w = scaled(WS_DOT_SLOT_WIDTH, dpi, bar_height);
    proof {
        lemma_mul_bounds(workspace_count as int, dot_slot_w as int, usize::MAX as int, 58401);
    }
    let dots_end: i128 = dots_x as i128 + workspace_count as i128 * dot_slot_w as i128;
    if dots_x <= x && (x as i128) < dots_end {
        return Some(BarRegion::Dots);
    }
    if !is_primary {
        return None;
    }
    let clock_w = scaled(CLOCK_LABEL_WIDTH, dpi, bar_height);
    let clock_x: i32 = bar_width / 2 - clock_w / 2;
    if clock_x <= x && x < clock_x + clock_w {
        return Some(BarRegion::Clock);
    }
    let (pill, _) = qs_pill_layout(bar_width, dpi, bar_h, bar_height);
    if pill.left <= x && x < pill.right {
        return Some(BarRegion::QsPill);
    }
    let gear = settings_button_rect(pill, dpi, bar_h, bar_height);
    if gear.left <= x && x < gear.right {
        return Some(BarRegion::SettingsGear);
    }
    None
}

/// At the reference bar height, the content scale leaves every constant as it is.
pub proof fn lemma_reference_height_is_unscaled(v: int)
    requires
        v >= 0,
    ensures
        content_scaled(v, BAR_HEIGHT as int) == v,
{
    assert((2 * v * 24 + 24) / 48 == v) by (nonlinear_arith)
        requires
            v >= 0,
    ;
}

/// What a click on a bar does.
#[derive(Clone, Copy, PartialEq, Eq, Debug, Structural)]
pub enum BarClick {
    /// Open or close this monitor's overview.
    ToggleOverview,
    /// Go to workspace `index`: slide the open overview's carousel there
    /// (`slide`), or switch directly when the overview is not open.
    GoToWorkspace { index: usize, slide: bool },
    ToggleCalendar,
    ToggleQuickSettings,
    OpenSettings,
    Nothing,
}

/// The workspace dot under `x` (only meaningful inside the dots region).
pub open spec fn dot_index(x: int, dpi: int, bh: int) -> int {
    (x - bar_scaled(WS_DOTS_X as int, dpi, bh)) / bar_scaled(WS_DOT_SLOT_WIDTH as int, dpi, bh)
}

/// A click at `x` on a bar (see [`region_at`]): Activities toggles the
/// overview, a workspace dot goes to that workspace, the clock, pill and
/// gear open the calendar, Quick Settings and the settings app.
pub fn on_bar_click(
    x: i32,
    dpi: u32,
    bar_width: i32,
    bar_h: i32,
    is_primary: bool,
    workspace_count: usize,
    bar_height: i32,
    overview_open: bool,
) -> (r: BarClick)
    requires
        bar_inputs_ok(dpi as int, bar_height as int),
        bar_coord_ok(bar_width as int),
        bar_coord_ok(bar_h as int),
    ensures
        r == match region_at_spec(
            x as int,
            dpi as int,
            bar_width as int,
            bar_h as int,
            is_primary,
            workspace_count as int,
            bar_height as int,
        ) {
            Some(BarRegion::Activities) => BarClick::ToggleOverview,
            Some(BarRegion::Dots) => BarClick::GoToWorkspace {
                index: dot_index(x as int, dpi as int, bar_height as int) as usize,
                slide: overview_open,
            },
            Some(BarRegion::Clock) => BarClick::ToggleCalendar,
            Some(BarRegion::QsPill) => BarClick::ToggleQuickSettings,
            Some(BarRegion::SettingsGear) => BarClick::OpenSettings,
            None => BarClick::Nothing,
        },
        r matches BarClick::GoToWorkspace { index, .. } ==> index < workspace_count,
{
    match region_at(x, dpi, bar_width, bar_h, is_primary, workspace_count, bar_height) {
        Some(BarRegion::Activities) => BarClick::ToggleOverview,
        Some(BarRegion::Dots) => {
            let dots_x = scaled(WS_DOTS_X, dpi, bar_height);
            let slot_w = scaled(WS_DOT_SLOT_WIDTH, dpi, bar_height);
            proof {
                lemma_mul_bounds(workspace_count as int, slot_w as int, usize::MAX as int, 58401);
            }
            assert(slot_w > 0) by (nonlinear_arith)
                requires
                    dots_x <= x < dots_x + workspace_count * slot_w,
                    slot_w >= 0,
                    workspace_count >= 0,
            ;
            let index: i32 = (x - dots_x) / slot_w;
            assert(index < workspace_count) by (nonlinear_arith)
                requires
                    index == (x - dots_x) as int / slot_w as int,
                    0 <= x - dots_x < workspace_count * slot_w,
                    slot_w > 0,
            ;
            BarClick::GoToWorkspace { index: index as usize, slide: overview_open }
        },
        Some(BarRegion::Clock) => BarClick::ToggleCalendar,
        Some(BarRegion::QsPill) => BarClick::ToggleQuickSettings,
        Some(BarRegion::SettingsGear) => BarClick::OpenSettings,
        None => BarClick::Nothing,
    }
}

} // verus!
