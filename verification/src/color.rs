//! Color and elevation tokens for every shell surface. Colors are written
//! in web order (`0x00RRGGBB`) and converted by [`rgb`] to the Win32
//! `COLORREF` layout (`0x00BBGGRR`); tokens switch to a high-contrast
//! palette when that setting is on, and the accent follows the live
//! Windows accent color.

use vstd::prelude::*;

verus! {

/// `hex` with its red and blue bytes swapped (the alpha byte dropped).
pub open spec fn rgb_spec(hex: u32) -> u32 {
    (((hex & 0xFF) << 16u32) | (((hex >> 8u32) & 0xFF) << 8u32) | ((hex >> 16u32) & 0xFF)) as u32
}

/// Converts a `0x00RRGGBB` web-order value to a `COLORREF` (`0x00BBGGRR`).
pub fn rgb(hex: u32) -> (r: u32)
    ensures
        r == rgb_spec(hex),
{
    let r = (hex >> 16) & 0xFF;
    let g = (hex >> 8) & 0xFF;
    let b = hex & 0xFF;
    (b << 16) | (g << 8) | r
}

/// Swapping red and blue twice gives back any 24-bit color, and the result
/// never has bits above the low 24.
pub proof fn lemma_rgb_is_an_involution(hex: u32)
    ensures
        hex <= 0x00FF_FFFF ==> rgb_spec(rgb_spec(hex)) == hex,
        rgb_spec(hex) <= 0x00FF_FFFF,
{
    assert(hex <= 0x00FF_FFFF ==> rgb_spec(rgb_spec(hex)) == hex) by (bit_vector);
    assert(rgb_spec(hex) <= 0x00FF_FFFF) by (bit_vector);
}

/// The DWM `AccentColor` value is `0xAABBGGRR`: dropping the alpha byte
/// yields a `COLORREF` directly.
pub fn accent_from_dword(abgr: u32) -> (r: u32)
    ensures
        r == abgr & 0x00FF_FFFF,
{
    abgr & 0x00FF_FFFF
}

/// The accent used when the registry cannot be read: `#4CC2FF`.
pub fn accent_fallback() -> (r: u32)
    ensures
        r == rgb_spec(0x004C_C2FF),
{
    rgb(0x004C_C2FF)
}

/// The theme state every token reads: the high-contrast setting and the
/// live accent color (a `COLORREF`).
#[derive(Clone, Copy, Debug, PartialEq, Eq, Structural)]
pub struct ShellTheme {
    pub high_contrast: bool,
    pub accent: u32,
}

/// The accent after re-reading the DWM registry values: `AccentColor`
/// (ABGR) if present, else `ColorizationColor` (ARGB, swapped), else the
/// fallback.
pub open spec fn resolved_accent(accent_color: Option<u32>, colorization_color: Option<u32>) -> u32 {
    match accent_color {
        Some(v) => v & 0x00FF_FFFF,
        None => match colorization_color {
            Some(argb) => rgb_spec(argb & 0x00FF_FFFF),
            None => rgb_spec(0x004C_C2FF),
        },
    }
}

impl ShellTheme {
    /// Applies freshly read DWM accent registry values (`None` for a value
    /// that could not be read).
    pub fn refresh_accent(&mut self, accent_color: Option<u32>, colorization_color: Option<u32>)
        ensures
            final(self).accent == resolved_accent(accent_color, colorization_color),
            final(self).high_contrast == old(self).high_contrast,
    {
        let value = match accent_color {
            Some(v) => accent_from_dword(v),
            None => match colorization_color {
                Some(argb) => rgb(argb & 0x00FF_FFFF),
                None => accent_fallback(),
            },
        };
        self.accent = value;
    }
}

/// Whether the high-contrast palette is active.
pub fn hc(theme: &ShellTheme) -> (r: bool)
    ensures
        r == theme.high_contrast,
{
    theme.high_contrast
}

/// Bar fill: `#1E1E1E`, black in high contrast.
pub fn surface_base(theme: &ShellTheme) -> (r: u32)
    ensures
        r == (if theme.high_contrast { rgb_spec(0) } else { rgb_spec(0x001E_1E1E) }),
{
    if hc(theme) { rgb(0x0000_0000) } else { rgb(0x001E_1E1E) }
}

/// Raised flyout/card fill: `#262626`, black in high contrast.
pub fn surface_raised(theme: &ShellTheme) -> (r: u32)
    ensures
        r == (if theme.high_contrast { rgb_spec(0) } else { rgb_spec(0x0026_2626) }),
{
    if hc(theme) { rgb(0x0000_0000) } else { rgb(0x0026_2626) }
}

/// Menu / hovered-chip fill above a card: `#2E2E2E`, `#1A1A1A` in high contrast.
pub fn surface_overlay(theme: &ShellTheme) -> (r: u32)
    ensures
        r == (if theme.high_contrast { rgb_spec(0x001A_1A1A) } else { rgb_spec(0x002E_2E2E) }),
{
    if hc(theme) { rgb(0x001A_1A1A) } else { rgb(0x002E_2E2E) }
}

/// Primary foreground: `#E8E8E8`, white in high contrast.
pub fn text(theme: &ShellTheme) -> (r: u32)
    ensures
        r == (if theme.high_contrast { rgb_spec(0x00FF_FFFF) } else { rgb_spec(0x00E8_E8E8) }),
{
    if hc(theme) { rgb(0x00FF_FFFF) } else { rgb(0x00E8_E8E8) }
}

/// Secondary foreground: `#9A9A9A`, `#C8C8C8` in high contrast.
pub fn text_muted(theme: &ShellTheme) -> (r: u32)
    ensures
        r == (if theme.high_contrast { rgb_spec(0x00C8_C8C8) } else { rgb_spec(0x009A_9A9A) }),
{
    if hc(theme) { rgb(0x00C8_C8C8) } else { rgb(0x009A_9A9A) }
}

/// Hairline borders/dividers: `#3A3A3A`, white in high contrast.
pub fn stroke(theme: &ShellTheme) -> (r: u32)
    ensures
        r == (if theme.high_contrast { rgb_spec(0x00FF_FFFF) } else { rgb_spec(0x003A_3A3A) }),
{
    if hc(theme) { rgb(0x00FF_FFFF) } else { rgb(0x003A_3A3A) }
}

/// Active/selected/focus emphasis: the live Windows accent, yellow in high
/// contrast.
pub fn accent(theme: &ShellTheme) -> (r: u32)
    ensures
        r == (if theme.high_contrast { rgb_spec(0x00FF_FF00) } else { theme.accent }),
{
    if hc(theme) { rgb(0x00FF_FF00) } else { theme.accent }
}

/// Text on an accent fill: white, black in high contrast.
pub fn accent_text(theme: &ShellTheme) -> (r: u32)
    ensures
        r == (if theme.high_contrast { rgb_spec(0) } else { rgb_spec(0x00FF_FFFF) }),
{
    if hc(theme) { rgb(0x0000_0000) } else { rgb(0x00FF_FFFF) }
}

/// Corner radius for chips, buttons, hover highlights.
pub const RADIUS_CHIP: i32 = 8;
/// Corner radius for cards and flyouts.
pub const RADIUS_CARD: i32 = 12;
/// Base spacing unit.
pub const SPACING: i32 = 8;
/// Hairline border width.
pub const STROKE_WIDTH: i32 = 1;

/// The drop-shadow spec for elevated surfaces.
#[derive(Clone, Copy, Debug, PartialEq, Eq, Structural)]
pub struct Shadow {
    pub blur: i32,
    pub dx: i32,
    pub dy: i32,
    /// Opaque black `COLORREF`; callers apply their own alpha.
    pub color: u32,
}

/// The shared elevation shadow: soft, slightly downward.
pub fn shadow() -> (s: Shadow)
    ensures
        s == (Shadow { blur: 18, dx: 0, dy: 6, color: 0 }),
{
    Shadow { blur: 18, dx: 0, dy: 6, color: 0x0000_0000 }
}

} // verus!
