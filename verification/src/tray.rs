//! Hosting the real notification-area overflow window under the bar's
//! chevron: finding it among the class names it has used across Windows
//! builds, and placing it right-aligned under the chevron on the monitor.

use vstd::prelude::*;
use crate::geometry::Rect;

verus! {

/// Class names the notification-area overflow window has used across
/// Windows builds, in lookup order: the classic tray's first, then the XAML
/// island hosts of newer Windows 11 shells.
pub fn overflow_class_candidates() -> (r: [&'static str; 3])
    ensures
        r@[0]@ == "NotifyIconOverflowWindow"@,
        r@[1]@ == "TopLevelWindowForOverflowXamlIsland"@,
        r@[2]@ == "XamlExplorerHostIslandWindow"@,
{
    ["NotifyIconOverflowWindow", "TopLevelWindowForOverflowXamlIsland", "XamlExplorerHostIslandWindow"]
}

/// The overflow window: the first class-name lookup that found a window
/// (`lookups` holds each candidate's handle, 0 when none was found).
pub fn find_overflow_window(lookups: &[isize]) -> (r: Option<isize>)
    ensures
        r matches Some(h) ==> h != 0 && exists|i: int|
            0 <= i < lookups@.len() && lookups@[i] == h && forall|j: int| 0 <= j < i ==> lookups@[j] == 0,
        r is None ==> forall|j: int| 0 <= j < lookups@.len() ==> lookups@[j] == 0,
{
    let mut i: usize = 0;
    while i < lookups.len()
        invariant
            i <= lookups@.len(),
            forall|j: int| 0 <= j < i ==> lookups@[j] == 0,
        decreases lookups.len() - i,
    {
        if lookups[i] != 0 {
            return Some(lookups[i]);
        }
        i += 1;
    }
    None
}

/// Whether there is an overflow window to host (the bar shows its
/// chevron only then).
pub fn overflow_available(lookups: &[isize]) -> (r: bool)
    ensures
        r == exists|i: int| 0 <= i < lookups@.len() && lookups@[i] != 0,
{
    let found = find_overflow_window(lookups);
    proof {
        if found is None {
            assert(forall|j: int| 0 <= j < lookups@.len() ==> lookups@[j] == 0);
        }
    }
    found.is_some()
}

/// The overflow window's left edge: its right edge under the chevron's
/// right edge, clamped so it stays on the monitor (the left edge wins when
/// the window is wider than the monitor).
pub open spec fn overflow_x(chevron_right: int, size_w: int, monitor_left: int, monitor_right: int) -> int {
    let hi = if monitor_right - size_w > monitor_left { monitor_right - size_w } else { monitor_left };
    let x = chevron_right - size_w;
    if x < monitor_left { monitor_left } else if x > hi { hi } else { x }
}

/// Top-left position for the overflow window, dropped to `below_y`.
pub fn overflow_position(chevron: Rect, size_w: i32, monitor_left: i32, monitor_right: i32, below_y: i32) -> (r: (i32, i32))
    requires
        -1_000_000_000 <= chevron.right <= 1_000_000_000,
        -1_000_000_000 <= monitor_right <= 1_000_000_000,
        -1_000_000_000 <= size_w <= 1_000_000_000,
    ensures
        r.0 == overflow_x(chevron.right as int, size_w as int, monitor_left as int, monitor_right as int),
        r.1 == below_y,
        monitor_left <= r.0,
{
    let hi: i32 = if monitor_right - size_w > monitor_left { monitor_right - size_w } else { monitor_left };
    let x: i32 = chevron.right - size_w;
    let cx: i32 = if x < monitor_left { monitor_left } else if x > hi { hi } else { x };
    (cx, below_y)
}

} // verus!
