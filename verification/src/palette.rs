//! The bar/calendar/overview palette (`COLORREF` values) with its
//! high-contrast alternative: black surfaces, white-adjacent text and a
//! saturated yellow accent.

use vstd::prelude::*;
use crate::color::ShellTheme;

verus! {

/// Primary foreground.
pub fn text(theme: &ShellTheme) -> (r: u32)
    ensures
        r == (if theme.high_contrast { 0x00FF_FFFFu32 } else { 0x00E0_E0E0u32 }),
{
    if theme.high_contrast { 0x00FFFFFF } else { 0x00E0E0E0 }
}

/// Secondary foreground (inactive workspace dots, hints).
pub fn text_muted(theme: &ShellTheme) -> (r: u32)
    ensures
        r == (if theme.high_contrast { 0x00C0_C0C0u32 } else { 0x0060_6060u32 }),
{
    if theme.high_contrast { 0x00C0C0C0 } else { 0x00606060 }
}

/// Bar / panel background.
pub fn background(theme: &ShellTheme) -> (r: u32)
    ensures
        r == (if theme.high_contrast { 0u32 } else { 0x0020_2020u32 }),
{
    if theme.high_contrast { 0x00000000 } else { 0x00202020 }
}

/// Raised panel / hovered chip above the background.
pub fn panel(theme: &ShellTheme) -> (r: u32)
    ensures
        r == (if theme.high_contrast { 0x0020_2020u32 } else { 0x0030_3030u32 }),
{
    if theme.high_contrast { 0x00202020 } else { 0x00303030 }
}

/// Active/selected emphasis: yellow in high contrast, light grey otherwise.
pub fn accent(theme: &ShellTheme) -> (r: u32)
    ensures
        r == (if theme.high_contrast { 0x0000_FFFFu32 } else { 0x00E0_E0E0u32 }),
{
    if theme.high_contrast { 0x0000FFFF } else { 0x00E0E0E0 }
}

} // verus!
