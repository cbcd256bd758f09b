use groveshell::color::{
    accent, accent_fallback, accent_from_dword, accent_text, hc, rgb, shadow, stroke, surface_base, surface_overlay,
    surface_raised, text, text_muted, Shadow, ShellTheme,
};
use groveshell::palette;

#[test]
fn rgb_swaps_red_and_blue_to_colorref() {
    // #1E2A3C: R=1E G=2A B=3C  ->  COLORREF 0x003C2A1E
    assert_eq!(rgb(0x001E_2A3C), 0x003C_2A1E);
}

#[test]
fn rgb_is_its_own_inverse() {
    assert_eq!(rgb(rgb(0x0012_3456)), 0x0012_3456);
}

#[test]
fn accent_from_dword_drops_alpha_and_keeps_bgr() {
    // DWM AccentColor 0xAABBGGRR -> COLORREF 0x00BBGGRR.
    assert_eq!(accent_from_dword(0xFF3C_2A1E), 0x003C_2A1E);
    assert_eq!(accent_from_dword(0x0000_0000), 0x0000_0000);
}

#[test]
fn rgb_ignores_the_top_byte() {
    assert_eq!(rgb(0xAB12_3456), 0x0056_3412);
}

#[test]
fn refresh_accent_prefers_accent_color_then_colorization_then_fallback() {
    let mut t = ShellTheme { high_contrast: true, accent: 0 };
    t.refresh_accent(Some(0xFF3C_2A1E), Some(0xFF11_2233));
    assert_eq!(t.accent, 0x003C_2A1E);
    assert!(t.high_contrast);
    t.refresh_accent(None, Some(0xFF11_2233));
    assert_eq!(t.accent, 0x0033_2211);
    t.refresh_accent(None, None);
    assert_eq!(t.accent, accent_fallback());
    assert_eq!(accent_fallback(), 0x00FF_C24C);
}

#[test]
fn tokens_switch_to_the_high_contrast_palette() {
    let normal = ShellTheme { high_contrast: false, accent: 0x0012_3456 };
    let contrast = ShellTheme { high_contrast: true, accent: 0x0012_3456 };
    assert!(!hc(&normal));
    assert!(hc(&contrast));
    assert_eq!(surface_base(&normal), 0x001E_1E1E);
    assert_eq!(surface_base(&contrast), 0);
    assert_eq!(surface_raised(&normal), 0x0026_2626);
    assert_eq!(surface_overlay(&normal), 0x002E_2E2E);
    assert_eq!(surface_overlay(&contrast), 0x001A_1A1A);
    assert_eq!(text(&normal), 0x00E8_E8E8);
    assert_eq!(text(&contrast), 0x00FF_FFFF);
    assert_eq!(text_muted(&normal), 0x009A_9A9A);
    assert_eq!(stroke(&normal), 0x003A_3A3A);
    assert_eq!(accent(&normal), 0x0012_3456);
    assert_eq!(accent(&contrast), 0x0000_FFFF);
    assert_eq!(accent_text(&normal), 0x00FF_FFFF);
    assert_eq!(accent_text(&contrast), 0);
}

#[test]
fn shadow_is_soft_and_downward() {
    assert_eq!(shadow(), Shadow { blur: 18, dx: 0, dy: 6, color: 0 });
}

#[test]
fn legacy_palette_colors() {
    let normal = ShellTheme { high_contrast: false, accent: 0 };
    let contrast = ShellTheme { high_contrast: true, accent: 0 };
    assert_eq!(palette::text(&normal), 0x00E0_E0E0);
    assert_eq!(palette::text_muted(&contrast), 0x00C0_C0C0);
    assert_eq!(palette::background(&normal), 0x0020_2020);
    assert_eq!(palette::panel(&contrast), 0x0020_2020);
    assert_eq!(palette::accent(&contrast), 0x0000_FFFF);
}
