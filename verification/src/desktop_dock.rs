//! The opt-in floating desktop dock: its autohide reveal state machine,
//! its panel geometry (with headroom for magnified icons) and icon
//! hit-testing. The wave magnification itself is drawn by the front end.

use vstd::prelude::*;
use crate::geometry::{
    div_trunc, lemma_mul_bounds, lemma_scaled_bounds, scaled, scaled_spec, Rect, MAX_DPI,
};
use crate::flyout::{progress_at, linear_progress, transition_done, PROGRESS_DONE};

verus! {

/// Autohide reveal phases: `Shown`/`Hidden` rest, `Revealing`/`Hiding` slide.
#[derive(Clone, Copy, PartialEq, Eq, Debug, Structural)]
pub enum RevealPhase {
    Hidden,
    Revealing,
    Shown,
    Hiding,
}

/// The resting phase a sliding phase ends in; resting phases map to themselves.
pub open spec fn terminal_of_spec(p: RevealPhase) -> RevealPhase {
    match p {
        RevealPhase::Revealing => RevealPhase::Shown,
        RevealPhase::Hiding => RevealPhase::Hidden,
        other => other,
    }
}

/// The resting phase a transition ends in.
pub fn terminal_of(transient: RevealPhase) -> (r: RevealPhase)
    ensures
        r == terminal_of_spec(transient),
{
    match transient {
        RevealPhase::Revealing => RevealPhase::Shown,
        RevealPhase::Hiding => RevealPhase::Hidden,
        other => other,
    }
}

/// The autohide reveal state machine, driven by hot-edge hits and leaves,
/// advanced by `tick`. Times in milliseconds.
#[derive(Clone, Copy, Debug)]
pub struct AutoHide {
    pub phase: RevealPhase,
    pub started_ms: u64,
    pub duration_ms: u64,
}

/// The state after beginning a slide into `transient` at `now` lasting `ms`.
pub open spec fn autohide_begin_spec(a: AutoHide, transient: RevealPhase, now: u64, ms: u32) -> AutoHide {
    AutoHide {
        phase: if ms == 0 { terminal_of_spec(transient) } else { transient },
        started_ms: now,
        duration_ms: ms as u64,
    }
}

/// The state after the pointer reaches the bottom hot edge.
pub open spec fn on_hot_edge_spec(a: AutoHide, now: u64, ms: u32) -> AutoHide {
    match a.phase {
        RevealPhase::Hidden => autohide_begin_spec(a, RevealPhase::Revealing, now, ms),
        RevealPhase::Hiding => AutoHide { phase: RevealPhase::Shown, ..a },
        _ => a,
    }
}

/// The state after the pointer leaves the dock.
pub open spec fn on_leave_spec(a: AutoHide, now: u64, ms: u32) -> AutoHide {
    match a.phase {
        RevealPhase::Shown | RevealPhase::Revealing => autohide_begin_spec(a, RevealPhase::Hiding, now, ms),
        _ => a,
    }
}

/// The state after advancing to `now`.
pub open spec fn autohide_tick_spec(a: AutoHide, now: u64) -> AutoHide {
    match a.phase {
        RevealPhase::Revealing | RevealPhase::Hiding => if transition_done(a.started_ms, a.duration_ms, now) {
            AutoHide { phase: terminal_of_spec(a.phase), ..a }
        } else {
            a
        },
        _ => a,
    }
}

impl AutoHide {
    /// Starts hidden.
    pub fn new() -> (r: Self)
        ensures
            r.phase == RevealPhase::Hidden,
            r.duration_ms == 0,
    {
        AutoHide { phase: RevealPhase::Hidden, started_ms: 0, duration_ms: 0 }
    }

    /// Begins sliding into `transient` at `now` for `ms`; a zero duration
    /// lands directly in its resting phase.
    pub fn begin(&mut self, transient: RevealPhase, now: u64, ms: u32)
        ensures
            *final(self) == autohide_begin_spec(*old(self), transient, now, ms),
    {
        self.started_ms = now;
        self.duration_ms = ms as u64;
        if ms == 0 {
            self.phase = terminal_of(transient);
        } else {
            self.phase = transient;
        }
    }

    /// The pointer reached the bottom hot edge: start revealing, or cancel
    /// an in-progress hide by snapping back to fully shown.
    pub fn on_hot_edge(&mut self, now: u64, ms: u32)
        ensures
            *final(self) == on_hot_edge_spec(*old(self), now, ms),
    {
        match self.phase {
            RevealPhase::Hidden => self.begin(RevealPhase::Revealing, now, ms),
            RevealPhase::Hiding => self.phase = RevealPhase::Shown,
            _ => {},
        }
    }

    /// The pointer left the dock: start hiding.
    pub fn on_leave(&mut self, now: u64, ms: u32)
        ensures
            *final(self) == on_leave_spec(*old(self), now, ms),
    {
        match self.phase {
            RevealPhase::Shown | RevealPhase::Revealing => self.begin(RevealPhase::Hiding, now, ms),
            _ => {},
        }
    }

    /// Advances to `now`, completing `Revealing -> Shown` / `Hiding ->
    /// Hidden`; returns the linear progress in thousandths (1000 at rest).
    pub fn tick(&mut self, now: u64) -> (p: u32)
        ensures
            *final(self) == autohide_tick_spec(*old(self), now),
            (old(self).phase == RevealPhase::Revealing || old(self).phase == RevealPhase::Hiding) ==> p
                == linear_progress(old(self).started_ms, old(self).duration_ms, now),
            !(old(self).phase == RevealPhase::Revealing || old(self).phase == RevealPhase::Hiding) ==> p
                == PROGRESS_DONE,
    {
        match self.phase {
            RevealPhase::Revealing | RevealPhase::Hiding => {
                let p = progress_at(self.started_ms, self.duration_ms, now);
                if p >= PROGRESS_DONE {
                    self.phase = terminal_of(self.phase);
                }
                p
            },
            _ => PROGRESS_DONE,
        }
    }

    /// Whether a slide is in flight.
    pub fn is_animating(&self) -> (r: bool)
        ensures
            r == (self.phase == RevealPhase::Revealing || self.phase == RevealPhase::Hiding),
    {
        match self.phase {
            RevealPhase::Revealing | RevealPhase::Hiding => true,
            _ => false,
        }
    }

    /// Sets the phase directly (the initial resting state at creation).
    pub fn force(&mut self, phase: RevealPhase)
        ensures
            final(self).phase == phase,
            final(self).started_ms == old(self).started_ms,
            final(self).duration_ms == old(self).duration_ms,
    {
        self.phase = phase;
    }

    /// Autohide driven by the pointer: while hidden or hiding, reaching the
    /// bottom edge (`at_edge`) reveals; while shown or revealing, leaving
    /// the dock's footprint hides. Returns whether the pointer left (so the
    /// caller drops its tracked cursor position and flattens the wave).
    pub fn update_autohide(&mut self, over_footprint: bool, at_edge: bool, now: u64, ms: u32) -> (left: bool)
        ensures
            (old(self).phase == RevealPhase::Hidden || old(self).phase == RevealPhase::Hiding) ==> !left && (
            if at_edge {
                *final(self) == on_hot_edge_spec(*old(self), now, ms)
            } else {
                *final(self) == *old(self)
            }),
            (old(self).phase == RevealPhase::Shown || old(self).phase == RevealPhase::Revealing) ==> left
                == !over_footprint && (if over_footprint {
                *final(self) == *old(self)
            } else {
                *final(self) == on_leave_spec(*old(self), now, ms)
            }),
    {
        match self.phase {
            RevealPhase::Hidden | RevealPhase::Hiding => {
                if at_edge {
                    self.on_hot_edge(now, ms);
                }
                false
            },
            RevealPhase::Shown | RevealPhase::Revealing => {
                if !over_footprint {
                    self.on_leave(now, ms);
                    true
                } else {
                    false
                }
            },
        }
    }
}

/// A hot-edge hit always leads to the dock being shown once its slide has
/// run (and immediately when a hide was in progress); a leave always leads
/// to it being hidden; a slide left to run its full duration rests.
pub proof fn lemma_autohide_reveal_and_hide(a: AutoHide, now: u64, ms: u32, later: u64)
    requires
        later >= now + ms,
    ensures
        (a.phase == RevealPhase::Hidden || a.phase == RevealPhase::Hiding) ==> autohide_tick_spec(
            on_hot_edge_spec(a, now, ms),
            later,
        ).phase == RevealPhase::Shown,
        (a.phase == RevealPhase::Shown || a.phase == RevealPhase::Revealing) ==> autohide_tick_spec(
            on_leave_spec(a, now, ms),
            later,
        ).phase == RevealPhase::Hidden,
        a.phase == RevealPhase::Hiding ==> on_hot_edge_spec(a, now, ms).phase == RevealPhase::Shown,
{
}

/// 96-DPI metrics of the floating desktop dock.
pub const ICON_GAP: i32 = 12;
pub const PAD_X: i32 = 14;
pub const PAD_Y: i32 = 10;
pub const CORNER_RADIUS: i32 = 22;
pub const MARGIN_BOTTOM: i32 = 10;
pub const RUNNING_DOT_RADIUS: i32 = 3;
/// How close to the bottom edge the pointer must get to reveal (96-DPI).
pub const REVEAL_BAND: i32 = 3;
/// Peak magnification of the icon under the pointer, in hundredths.
pub const MAX_SCALE_PERCENT: i32 = 165;

/// The dock panel in window-local coordinates, each icon's resting center
/// x, the baseline icons sit on, and the window size (taller and wider
/// than the panel so magnified icons are not clipped).
#[derive(Debug, PartialEq, Eq)]
pub struct PanelGeometry {
    pub panel_rect: Rect,
    pub centers: Vec<i32>,
    pub baseline_bottom: i32,
    pub window_w: i32,
    pub window_h: i32,
    /// The resting (un-magnified) icon size.
    pub icon: i32,
}

/// Resting icon size at `dpi`: never below one pixel.
pub open spec fn panel_icon(icon_ref: int, dpi: int) -> int {
    let v = scaled_spec(icon_ref, dpi);
    if v > 1 { v } else { 1 }
}

/// The fully magnified icon size: `icon * 1.65`, rounded half up.
pub open spec fn magnified_icon(icon: int) -> int {
    (icon * MAX_SCALE_PERCENT + 50) / 100
}

/// Number of slots: at least one.
pub open spec fn panel_count(app_count: int) -> int {
    if app_count > 1 { app_count } else { 1 }
}

/// Panel width: icons, gaps, side padding.
pub open spec fn panel_width(app_count: int, icon_ref: int, dpi: int) -> int {
    let icon = panel_icon(icon_ref, dpi);
    let n = panel_count(app_count);
    n * icon + (n - 1) * scaled_spec(ICON_GAP as int, dpi) + 2 * scaled_spec(PAD_X as int, dpi)
}

/// Horizontal headroom on each side of the panel for an end icon at full magnification.
pub open spec fn panel_side_pad(icon_ref: int, dpi: int) -> int {
    let icon = panel_icon(icon_ref, dpi);
    div_trunc(magnified_icon(icon) - icon, 2) + scaled_spec(ICON_GAP as int, dpi)
}

/// Headroom above the panel for the crest icon.
pub open spec fn panel_top_pad(icon_ref: int, dpi: int) -> int {
    let icon = panel_icon(icon_ref, dpi);
    let d = magnified_icon(icon) - icon;
    (if d > 0 { d } else { 0 }) + scaled_spec(PAD_Y as int, dpi)
}

/// Inputs for which the panel arithmetic stays within `i32`.
pub open spec fn panel_inputs_ok(app_count: int, icon_ref: int, dpi: int) -> bool {
    0 <= app_count <= 1024 && 0 <= icon_ref <= 1024 && 0 <= dpi <= MAX_DPI
}

/// The dock's resting geometry for `app_count` icons of `icon_size_ref`
/// (96-DPI) at `dpi`. An empty dock is laid out as one slot.
pub fn panel_geometry(app_count: usize, icon_size_ref: i32, dpi: u32) -> (g: PanelGeometry)
    requires
        panel_inputs_ok(app_count as int, icon_size_ref as int, dpi as int),
    ensures
        ({
            let icon = panel_icon(icon_size_ref as int, dpi as int);
            let panel_w = panel_width(app_count as int, icon_size_ref as int, dpi as int);
            let panel_h = icon + 2 * scaled_spec(PAD_Y as int, dpi as int);
            let side = panel_side_pad(icon_size_ref as int, dpi as int);
            let window_w = panel_w + 2 * side;
            let window_h = panel_h + panel_top_pad(icon_size_ref as int, dpi as int);
            &&& g.icon == icon
            &&& g.window_w == window_w
            &&& g.window_h == window_h
            &&& g.panel_rect == (Rect {
                left: side as i32,
                top: (window_h - panel_h) as i32,
                right: (side + panel_w) as i32,
                bottom: window_h as i32,
            })
            &&& g.baseline_bottom == window_h - scaled_spec(PAD_Y as int, dpi as int)
            &&& g.centers@.len() == panel_count(app_count as int)
            &&& forall|i: int|
                0 <= i < g.centers@.len() ==> #[trigger] g.centers@[i] == side + scaled_spec(
                    PAD_X as int,
                    dpi as int,
                ) + div_trunc(icon, 2) + i * (icon + scaled_spec(ICON_GAP as int, dpi as int))
        }),
{
    proof {
        lemma_scaled_bounds(icon_size_ref as int, dpi as int);
        lemma_scaled_bounds(ICON_GAP as int, dpi as int);
        lemma_scaled_bounds(PAD_X as int, dpi as int);
        lemma_scaled_bounds(PAD_Y as int, dpi as int);
        lemma_mul_bounds(icon_size_ref as int, dpi as int, 1024, 9600);
    }
    let s = scaled(icon_size_ref, dpi);
    let icon: i32 = if s > 1 { s } else { 1 };
    let gap = scaled(ICON_GAP, dpi);
    let pad_x = scaled(PAD_X, dpi);
    let pad_y = scaled(PAD_Y, dpi);

    let count: i32 = if app_count > 1 { app_count as i32 } else { 1 };
    proof {
        lemma_mul_bounds(count as int, icon as int, 1024, 102401);
        lemma_mul_bounds((count - 1) as int, gap as int, 1024, 1201);
        lemma_mul_bounds(icon as int, MAX_SCALE_PERCENT as int, 102401, 165);
    }
    let panel_w: i32 = count * icon + (count - 1) * gap + pad_x * 2;
    let panel_h: i32 = icon + pad_y * 2;

    let max_icon: i32 = (icon * MAX_SCALE_PERCENT + 50) / 100;
    let side_pad: i32 = (max_icon - icon) / 2 + gap;
    let top_pad: i32 = (if max_icon - icon > 0 { max_icon - icon } else { 0 }) + pad_y;
    let window_w: i32 = panel_w + side_pad * 2;
    let window_h: i32 = panel_h + top_pad;

    let panel_left = side_pad;
    let panel_top = window_h - panel_h;
    let panel_rect = Rect { left: panel_left, top: panel_top, right: panel_left + panel_w, bottom: window_h };
    let baseline_bottom = window_h - pad_y;

    let mut centers: Vec<i32> = Vec::new();
    let first_center: i32 = panel_left + pad_x + icon / 2;
    let mut i: i32 = 0;
    while i < count
        invariant
            0 <= i <= count,
            1 <= count <= 1024,
            count == panel_count(app_count as int),
            1 <= icon <= 102401,
            0 <= gap <= 1201,
            0 <= first_center <= 200_000,
            centers@.len() == i,
            forall|j: int| 0 <= j < i ==> #[trigger] centers@[j] == first_center + j * (icon + gap),
        decreases count - i,
    {
        proof {
            lemma_mul_bounds(i as int, (icon + gap) as int, 1024, 103602);
        }
        centers.push(first_center + i * (icon + gap));
        i += 1;
    }
    PanelGeometry { panel_rect, centers, baseline_bottom, window_w, window_h, icon }
}

/// Distance between two points on a line.
pub open spec fn abs_diff(a: int, b: int) -> int {
    if a >= b { a - b } else { b - a }
}

/// Which icon the pointer at window-local `x` is over: the first whose
/// resting center is within half a pitch (icon + gap) of `x`; `None` past
/// the ends. Uses the fixed centers, so clicks land on the same app whether
/// the dock is resting or mid-wave.
pub fn icon_at(geo: &PanelGeometry, x: i32, dpi: u32) -> (r: Option<usize>)
    requires
        dpi <= MAX_DPI,
        0 <= geo.icon <= 200_000,
        forall|i: int| 0 <= i < geo.centers@.len() ==> -1_000_000_000 <= #[trigger] geo.centers@[i] <= 1_000_000_000,
        -1_000_000_000 <= x <= 1_000_000_000,
    ensures
        ({
            let half = div_trunc(geo.icon + scaled_spec(ICON_GAP as int, dpi as int), 2);
            &&& r matches Some(i) ==> i < geo.centers@.len() && abs_diff(x as int, geo.centers@[i as int] as int)
                <= half && forall|j: int|
                0 <= j < i ==> abs_diff(x as int, geo.centers@[j] as int) > half
            &&& r is None ==> forall|j: int|
                0 <= j < geo.centers@.len() ==> abs_diff(x as int, geo.centers@[j] as int) > half
        }),
{
    proof {
        lemma_scaled_bounds(ICON_GAP as int, dpi as int);
    }
    let pitch: i32 = geo.icon + scaled(ICON_GAP, dpi);
    let half: i32 = pitch / 2;
    let mut i: usize = 0;
    while i < geo.centers.len()
        invariant
            i <= geo.centers@.len(),
            0 <= half <= 200_000,
            half == div_trunc(geo.icon + scaled_spec(ICON_GAP as int, dpi as int), 2),
            forall|k: int| 0 <= k < geo.centers@.len() ==> -1_000_000_000 <= #[trigger] geo.centers@[k] <= 1_000_000_000,
            -1_000_000_000 <= x <= 1_000_000_000,
            forall|j: int| 0 <= j < i ==> abs_diff(x as int, geo.centers@[j] as int) > half,
        decreases geo.centers.len() - i,
    {
        let c: i32 = geo.centers[i];
        let d: i64 = if (x as i64) >= (c as i64) { (x as i64) - (c as i64) } else { (c as i64) - (x as i64) };
        if d <= half as i64 {
            return Some(i);
        }
        i += 1;
    }
    None
}

/// Icon centers one pitch apart are more than half a pitch from each
/// other, so a click on an icon's resting center hits that icon and no
/// earlier one (with `icon_at`'s first-match rule).
pub proof fn lemma_icon_center_hits_its_icon(c0: int, pitch: int, i: int, j: int)
    requires
        pitch >= 1,
        0 <= j < i,
    ensures
        abs_diff(c0 + i * pitch, c0 + i * pitch) <= div_trunc(pitch, 2),
        abs_diff(c0 + i * pitch, c0 + j * pitch) > div_trunc(pitch, 2),
{
    assert(i * pitch - j * pitch == (i - j) * pitch) by (nonlinear_arith);
    assert((i - j) * pitch >= pitch) by (nonlinear_arith)
        requires
            i - j >= 1,
            pitch >= 1,
    ;
}

/// Offset basis and prime of the dock's contents signature (FNV-1a's).
pub const SIGNATURE_BASIS: u64 = 1469598103934665603;
pub const SIGNATURE_PRIME: u64 = 1099511628211;

/// The signature fold over the first `n` window handles, from `seed`.
pub open spec fn signature_fold(seed: u64, hwnds: Seq<isize>, n: int) -> u64
    decreases n,
{
    if n <= 0 {
        seed
    } else {
        (signature_fold(seed, hwnds, n - 1) ^ (hwnds[n - 1] as u64)).wrapping_mul(SIGNATURE_PRIME)
    }
}

/// The dock's contents signature for the running windows `hwnds` and
/// `pin_count` pins.
pub open spec fn contents_signature_spec(hwnds: Seq<isize>, pin_count: usize) -> u64 {
    let seed = SIGNATURE_BASIS ^ (hwnds.len() as u64).wrapping_shl(1);
    signature_fold(seed, hwnds, hwnds.len() as int) ^ (pin_count as u64).wrapping_shl(48)
}

/// A cheap fingerprint of the running windows (in order) and the pin
/// count, so the dock's periodic refresh can skip rebuilding its entries
/// when nothing changed.
pub fn contents_signature(hwnds: &[isize], pin_count: usize) -> (sig: u64)
    ensures
        sig == contents_signature_spec(hwnds@, pin_count),
{
    let seed: u64 = SIGNATURE_BASIS ^ (hwnds.len() as u64).wrapping_shl(1);
    let mut sig: u64 = seed;
    let mut i: usize = 0;
    while i < hwnds.len()
        invariant
            i <= hwnds@.len(),
            seed == SIGNATURE_BASIS ^ (hwnds@.len() as u64).wrapping_shl(1),
            sig == signature_fold(seed, hwnds@, i as int),
        decreases hwnds.len() - i,
    {
        sig = (sig ^ (hwnds[i] as u64)).wrapping_mul(SIGNATURE_PRIME);
        i += 1;
    }
    sig ^ (pin_count as u64).wrapping_shl(48)
}

/// Whether the dock must rebuild its entries: the configured icon size or
/// the contents signature changed since the last rebuild.
pub fn needs_refresh(icon_size_ref: i32, last_icon_size_ref: i32, sig: u64, last_sig: u64) -> (r: bool)
    ensures
        r == (icon_size_ref != last_icon_size_ref || sig != last_sig),
{
    icon_size_ref != last_icon_size_ref || sig != last_sig
}

/// The dock window's resting top-left on a monitor with work area `work`:
/// centered horizontally, `MARGIN_BOTTOM` (scaled) above the work area's
/// bottom.
pub fn dock_window_origin(work: Rect, geo: &PanelGeometry, dpi: u32) -> (r: (i32, i32))
    requires
        dpi <= MAX_DPI,
        -1_000_000 <= work.left <= 1_000_000,
        -1_000_000 <= work.right <= 1_000_000,
        -1_000_000 <= work.bottom <= 1_000_000,
        0 <= geo.window_w <= 1_000_000,
        0 <= geo.window_h <= 1_000_000,
    ensures
        r.0 == work.left + div_trunc(work.right - work.left - geo.window_w, 2),
        r.1 == work.bottom - scaled_spec(MARGIN_BOTTOM as int, dpi as int) - geo.window_h,
{
    proof {
        lemma_scaled_bounds(MARGIN_BOTTOM as int, dpi as int);
    }
    let left: i32 = work.left + (work.right - work.left - geo.window_w) / 2;
    let top: i32 = work.bottom - scaled(MARGIN_BOTTOM, dpi) - geo.window_h;
    (left, top)
}

} // verus!
