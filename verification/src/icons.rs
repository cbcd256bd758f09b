//! Which status glyph the bar and Quick Settings show for a volume level
//! or a battery state.

use vstd::prelude::*;

verus! {

/// One entry per icon asset, named after the state it shows.
#[derive(Clone, Copy, PartialEq, Eq, Debug, Hash, Structural)]
pub enum Icon {
    Wifi,
    WifiOff,
    Volume2,
    Volume1,
    VolumeX,
    Bluetooth,
    BluetoothOff,
    Plane,
    BatteryFull,
    BatteryMedium,
    BatteryLow,
    BatteryWarning,
    BatteryCharging,
    Sun,
    Moon,
}

/// Muted (or zero) shows the crossed speaker, below 50% the quiet one,
/// otherwise the loud one.
pub fn volume_icon(muted: bool, percent: u32) -> (r: Icon)
    ensures
        muted || percent == 0 ==> r == Icon::VolumeX,
        !(muted || percent == 0) && percent < 50 ==> r == Icon::Volume1,
        !(muted || percent == 0) && percent >= 50 ==> r == Icon::Volume2,
{
    if muted || percent == 0 {
        Icon::VolumeX
    } else if percent < 50 {
        Icon::Volume1
    } else {
        Icon::Volume2
    }
}

/// Charging always shows the bolt; otherwise the level picks warning
/// (<= 15), low (<= 40), medium (<= 75) or full.
pub fn battery_icon(percent: u8, charging: bool) -> (r: Icon)
    ensures
        charging ==> r == Icon::BatteryCharging,
        !charging && percent <= 15 ==> r == Icon::BatteryWarning,
        !charging && 15 < percent <= 40 ==> r == Icon::BatteryLow,
        !charging && 40 < percent <= 75 ==> r == Icon::BatteryMedium,
        !charging && 75 < percent ==> r == Icon::BatteryFull,
{
    if charging {
        Icon::BatteryCharging
    } else if percent <= 15 {
        Icon::BatteryWarning
    } else if percent <= 40 {
        Icon::BatteryLow
    } else if percent <= 75 {
        Icon::BatteryMedium
    } else {
        Icon::BatteryFull
    }
}

/// A higher battery level never shows a lower-level glyph.
pub open spec fn battery_rank(icon: Icon) -> int {
    match icon {
        Icon::BatteryWarning => 0,
        Icon::BatteryLow => 1,
        Icon::BatteryMedium => 2,
        _ => 3,
    }
}

/// Battery glyphs are monotonic in the level while discharging.
pub proof fn lemma_battery_icon_monotonic(p1: u8, p2: u8, r1: Icon, r2: Icon)
    requires
        p1 <= p2,
        r1 == (if p1 <= 15 { Icon::BatteryWarning } else if p1 <= 40 { Icon::BatteryLow } else if p1 <= 75 {
            Icon::BatteryMedium
        } else {
            Icon::BatteryFull
        }),
        r2 == (if p2 <= 15 { Icon::BatteryWarning } else if p2 <= 40 { Icon::BatteryLow } else if p2 <= 75 {
            Icon::BatteryMedium
        } else {
            Icon::BatteryFull
        }),
    ensures
        battery_rank(r1) <= battery_rank(r2),
{
}

} // verus!
