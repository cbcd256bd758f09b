//! The Quick Settings flyout's layout (chips, mute button, volume row,
//! battery row) and what a press inside it does. The window is larger than
//! the visible card by a shadow margin on every side; all rects are in
//! window client coordinates.

use vstd::prelude::*;
use crate::geometry::{div_trunc, lemma_scaled_bounds, scaled, scaled_spec, Rect, MAX_DPI};

verus! {

/// 96-DPI panel metrics.
pub const QS_WIDTH: i32 = 320;
pub const QS_HEIGHT: i32 = 316;
pub const QS_SHADOW_MARGIN: i32 = 24;
pub const QS_PADDING: i32 = 16;
pub const QS_CHIP_GAP: i32 = 12;
pub const QS_CHIP_HEIGHT: i32 = 60;
pub const QS_ROW_GAP: i32 = 18;
pub const QS_VOLUME_ROW_HEIGHT: i32 = 32;
pub const QS_BATTERY_ROW_HEIGHT: i32 = 28;
pub const QS_ICON_SIZE: i32 = 20;
/// Gap between the mute button and the volume track (96-DPI).
pub const QS_MUTE_GAP: i32 = 12;
/// Extra height above and below the volume row that still starts a drag.
pub const QS_VOLUME_GRAB_BAND: i32 = 8;

/// Every rect of the panel.
#[derive(Clone, Copy, Debug, PartialEq, Eq, Structural)]
pub struct QsLayout {
    pub card: Rect,
    pub wifi_chip: Rect,
    pub theme_chip: Rect,
    pub bluetooth_chip: Rect,
    pub airplane_chip: Rect,
    pub mute_button: Rect,
    pub volume_track: Rect,
    pub battery_row: Rect,
}

/// A 96-DPI length at `dpi` (see [`scaled_spec`]).
pub open spec fn s(v: int, dpi: int) -> int {
    scaled_spec(v, dpi)
}

/// Left edge of the content (shadow margin plus inner padding).
pub open spec fn qs_pad(dpi: int) -> int {
    s(QS_SHADOW_MARGIN as int, dpi) + s(QS_PADDING as int, dpi)
}

/// Right edge of the content.
pub open spec fn qs_content_right(dpi: int) -> int {
    s(QS_SHADOW_MARGIN as int, dpi) + s(QS_WIDTH as int, dpi) - s(QS_PADDING as int, dpi)
}

/// Width of each chip: two per row with a gap between.
pub open spec fn qs_chip_w(dpi: int) -> int {
    div_trunc(qs_content_right(dpi) - qs_pad(dpi) - s(QS_CHIP_GAP as int, dpi), 2)
}

/// Top of the volume row.
pub open spec fn qs_volume_top(dpi: int) -> int {
    qs_pad(dpi) + 2 * s(QS_CHIP_HEIGHT as int, dpi) + s(QS_CHIP_GAP as int, dpi) + s(QS_ROW_GAP as int, dpi)
}

/// The panel's rects at `dpi`, each as a plain value of `dpi` so painting
/// and hit-testing always agree.
pub fn qs_layout(dpi: u32) -> (l: QsLayout)
    requires
        dpi <= MAX_DPI,
    ensures
        ({
            let d = dpi as int;
            let margin = s(QS_SHADOW_MARGIN as int, d);
            let pad = qs_pad(d);
            let cr = qs_content_right(d);
            let gap = s(QS_CHIP_GAP as int, d);
            let chip_h = s(QS_CHIP_HEIGHT as int, d);
            let chip_w = qs_chip_w(d);
            let row2 = pad + chip_h + gap;
            let vt = qs_volume_top(d);
            let vh = s(QS_VOLUME_ROW_HEIGHT as int, d);
            let icon = s(QS_ICON_SIZE as int, d);
            let mute_top = vt + div_trunc(vh - icon, 2);
            let bt = vt + vh + s(QS_ROW_GAP as int, d);
            &&& l.card.left == margin && l.card.top == margin
            &&& l.card.right == margin + s(QS_WIDTH as int, d) && l.card.bottom == margin + s(QS_HEIGHT as int, d)
            &&& l.wifi_chip.left == pad && l.wifi_chip.top == pad && l.wifi_chip.right == pad + chip_w
                && l.wifi_chip.bottom == pad + chip_h
            &&& l.theme_chip.left == pad + chip_w + gap && l.theme_chip.top == pad && l.theme_chip.right == cr
                && l.theme_chip.bottom == pad + chip_h
            &&& l.bluetooth_chip.left == pad && l.bluetooth_chip.top == row2 && l.bluetooth_chip.right == pad
                + chip_w && l.bluetooth_chip.bottom == row2 + chip_h
            &&& l.airplane_chip.left == pad + chip_w + gap && l.airplane_chip.top == row2
                && l.airplane_chip.right == cr && l.airplane_chip.bottom == row2 + chip_h
            &&& l.mute_button.left == pad && l.mute_button.top == mute_top && l.mute_button.right == pad + icon
                && l.mute_button.bottom == mute_top + icon
            &&& l.volume_track.left == pad + icon + s(QS_MUTE_GAP as int, d) && l.volume_track.top == vt
                && l.volume_track.right == cr && l.volume_track.bottom == vt + vh
            &&& l.battery_row.left == pad && l.battery_row.top == bt && l.battery_row.right == cr
                && l.battery_row.bottom == bt + s(QS_BATTERY_ROW_HEIGHT as int, d)
        }),
{
    proof {
        lemma_scaled_bounds(QS_SHADOW_MARGIN as int, dpi as int);
        lemma_scaled_bounds(QS_PADDING as int, dpi as int);
        lemma_scaled_bounds(QS_WIDTH as int, dpi as int);
        lemma_scaled_bounds(QS_HEIGHT as int, dpi as int);
        lemma_scaled_bounds(QS_CHIP_GAP as int, dpi as int);
        lemma_scaled_bounds(QS_CHIP_HEIGHT as int, dpi as int);
        lemma_scaled_bounds(QS_ROW_GAP as int, dpi as int);
        lemma_scaled_bounds(QS_VOLUME_ROW_HEIGHT as int, dpi as int);
        lemma_scaled_bounds(QS_BATTERY_ROW_HEIGHT as int, dpi as int);
        lemma_scaled_bounds(QS_ICON_SIZE as int, dpi as int);
        lemma_scaled_bounds(QS_MUTE_GAP as int, dpi as int);
    }
    let margin = scaled(QS_SHADOW_MARGIN, dpi);
    let inner_pad = scaled(QS_PADDING, dpi);
    let pad = margin + inner_pad;
    let card_right = margin + scaled(QS_WIDTH, dpi);
    let card_bottom = margin + scaled(QS_HEIGHT, dpi);
    let content_right = card_right - inner_pad;
    let card = Rect { left: margin, top: margin, right: card_right, bottom: card_bottom };

    let chip_gap = scaled(QS_CHIP_GAP, dpi);
    let chip_h = scaled(QS_CHIP_HEIGHT, dpi);
    let row_gap = scaled(QS_ROW_GAP, dpi);
    let volume_h = scaled(QS_VOLUME_ROW_HEIGHT, dpi);
    let battery_h = scaled(QS_BATTERY_ROW_HEIGHT, dpi);
    let icon = scaled(QS_ICON_SIZE, dpi);

    let chips_top = pad;
    let chip_w = (content_right - pad - chip_gap) / 2;
    let wifi_chip = Rect { left: pad, top: chips_top, right: pad + chip_w, bottom: chips_top + chip_h };
    let theme_chip = Rect {
        left: wifi_chip.right + chip_gap,
        top: chips_top,
        right: content_right,
        bottom: chips_top + chip_h,
    };
    let chips_row2_top = wifi_chip.bottom + chip_gap;
    let bluetooth_chip = Rect {
        left: pad,
        top: chips_row2_top,
        right: pad + chip_w,
        bottom: chips_row2_top + chip_h,
    };
    let airplane_chip = Rect {
        left: bluetooth_chip.right + chip_gap,
        top: chips_row2_top,
        right: content_right,
        bottom: chips_row2_top + chip_h,
    };
    let volume_top = bluetooth_chip.bottom + row_gap;
    let mute_button = Rect {
        left: pad,
        top: volume_top + (volume_h - icon) / 2,
        right: pad + icon,
        bottom: volume_top + (volume_h - icon) / 2 + icon,
    };
    let volume_track = Rect {
        left: mute_button.right + scaled(QS_MUTE_GAP, dpi),
        top: volume_top,
        right: content_right,
        bottom: volume_top + volume_h,
    };
    let battery_top = volume_track.bottom + row_gap;
    let battery_row = Rect { left: pad, top: battery_top, right: content_right, bottom: battery_top + battery_h };
    QsLayout { card, wifi_chip, theme_chip, bluetooth_chip, airplane_chip, mute_button, volume_track, battery_row }
}

/// The panel's controls never overlap: the two chips of a row sit side by
/// side, the rows stack downwards, and everything stays inside the card.
pub proof fn lemma_qs_controls_disjoint(dpi: int)
    requires
        0 <= dpi <= MAX_DPI,
    ensures
        qs_pad(dpi) + qs_chip_w(dpi) <= qs_pad(dpi) + qs_chip_w(dpi) + s(QS_CHIP_GAP as int, dpi),
        qs_pad(dpi) + qs_chip_w(dpi) + s(QS_CHIP_GAP as int, dpi) <= qs_content_right(dpi),
        qs_pad(dpi) + s(QS_CHIP_HEIGHT as int, dpi) <= qs_pad(dpi) + s(QS_CHIP_HEIGHT as int, dpi) + s(
            QS_CHIP_GAP as int,
            dpi,
        ),
        qs_pad(dpi) + 2 * s(QS_CHIP_HEIGHT as int, dpi) + s(QS_CHIP_GAP as int, dpi) <= qs_volume_top(dpi),
        qs_content_right(dpi) <= s(QS_SHADOW_MARGIN as int, dpi) + s(QS_WIDTH as int, dpi),
        s(QS_SHADOW_MARGIN as int, dpi) <= qs_pad(dpi),
{
    let a = (320 * dpi + 48) / 96;
    let b = (16 * dpi + 48) / 96;
    let c = (12 * dpi + 48) / 96;
    assert(a - 2 * b - c >= 0) by (nonlinear_arith)
        requires
            a == (320 * dpi + 48) / 96,
            b == (16 * dpi + 48) / 96,
            c == (12 * dpi + 48) / 96,
            0 <= dpi,
    ;
    lemma_scaled_bounds(QS_CHIP_GAP as int, dpi);
    lemma_scaled_bounds(QS_ROW_GAP as int, dpi);
    lemma_scaled_bounds(QS_PADDING as int, dpi);
    lemma_scaled_bounds(QS_CHIP_HEIGHT as int, dpi);
}

/// What a press inside the panel does.
#[derive(Clone, Copy, Debug, PartialEq, Eq, Structural)]
pub enum QsPress {
    ToggleWifi,
    ToggleTheme,
    ToggleBluetooth,
    ToggleAirplane,
    ToggleMute,
    /// Start dragging the volume slider (and set it from this press).
    StartVolumeDrag,
    Nothing,
}

/// A press at `(x, y)`: the chips, then the mute button, then anywhere in
/// the volume row's grab band right of the track's left edge.
pub fn on_quick_settings_mouse_down(l: &QsLayout, dpi: u32, x: i32, y: i32) -> (r: QsPress)
    requires
        dpi <= MAX_DPI,
        -1_000_000 <= l.volume_track.top <= 1_000_000,
        -1_000_000 <= l.volume_track.bottom <= 1_000_000,
    ensures
        ({
            let band = s(QS_VOLUME_GRAB_BAND as int, dpi as int);
            let in_band = l.volume_track.top - band <= y < l.volume_track.bottom + band && x
                >= l.volume_track.left;
            r == (if l.wifi_chip.has_point(x as int, y as int) {
                QsPress::ToggleWifi
            } else if l.theme_chip.has_point(x as int, y as int) {
                QsPress::ToggleTheme
            } else if l.bluetooth_chip.has_point(x as int, y as int) {
                QsPress::ToggleBluetooth
            } else if l.airplane_chip.has_point(x as int, y as int) {
                QsPress::ToggleAirplane
            } else if l.mute_button.has_point(x as int, y as int) {
                QsPress::ToggleMute
            } else if in_band {
                QsPress::StartVolumeDrag
            } else {
                QsPress::Nothing
            })
        }),
{
    proof {
        lemma_scaled_bounds(QS_VOLUME_GRAB_BAND as int, dpi as int);
    }
    if l.wifi_chip.contains(x, y) {
        QsPress::ToggleWifi
    } else if l.theme_chip.contains(x, y) {
        QsPress::ToggleTheme
    } else if l.bluetooth_chip.contains(x, y) {
        QsPress::ToggleBluetooth
    } else if l.airplane_chip.contains(x, y) {
        QsPress::ToggleAirplane
    } else if l.mute_button.contains(x, y) {
        QsPress::ToggleMute
    } else {
        let band = scaled(QS_VOLUME_GRAB_BAND, dpi);
        if y >= l.volume_track.top - band && y < l.volume_track.bottom + band && x >= l.volume_track.left {
            QsPress::StartVolumeDrag
        } else {
            QsPress::Nothing
        }
    }
}

/// Airplane mode as the shell approximates it (there is no public API for
/// the system flag): on when every known radio is off; unknown when there
/// are no radios. `radio_off` holds, per radio, whether it reads as off.
pub fn airplane_mode_on(radio_off: &[bool]) -> (r: Option<bool>)
    ensures
        radio_off@.len() == 0 ==> r is None,
        radio_off@.len() > 0 ==> r == Some(forall|i: int| 0 <= i < radio_off@.len() ==> radio_off@[i]),
{
    if radio_off.len() == 0 {
        return None;
    }
    let mut i: usize = 0;
    while i < radio_off.len()
        invariant
            i <= radio_off@.len(),
            forall|j: int| 0 <= j < i ==> radio_off@[j],
        decreases radio_off.len() - i,
    {
        if !radio_off[i] {
            return Some(false);
        }
        i += 1;
    }
    Some(true)
}

} // verus!
