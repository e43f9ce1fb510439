use octos_tui::theme::{Palette, ThemeColor, ThemeName};

#[test]
fn terminal_theme_uses_terminal_default_surfaces() {
    let palette = Palette::for_theme(ThemeName::Terminal, false);

    assert_eq!(palette.surface, ThemeColor::Reset);
    assert_eq!(palette.surface_alt, ThemeColor::Reset);
    assert_eq!(palette.text, ThemeColor::Reset);
    assert_eq!(palette.diff_context_bg, ThemeColor::Reset);
    assert_eq!(palette.success_bg, ThemeColor::Reset);
    assert_eq!(palette.danger_bg, ThemeColor::Reset);
}

#[test]
fn terminal_theme_muted_depends_on_detected_bg() {
    let palette = Palette::for_theme(ThemeName::Terminal, true);
    assert_ne!(palette.accent, ThemeColor::Reset);
    assert_ne!(palette.highlight, ThemeColor::Reset);
    assert_eq!(palette.muted, ThemeColor::DarkGray);
    assert_eq!(palette.code_theme, "base16-github.light");
    let palette = Palette::for_theme(ThemeName::Terminal, false);
    assert_eq!(palette.muted, ThemeColor::Gray);
    assert_eq!(palette.code_theme, "base16-eighties.dark");
}

#[test]
fn terminal_theme_avoids_forced_green_highlights() {
    let palette = Palette::for_theme(ThemeName::Terminal, false);

    assert_ne!(palette.highlight, ThemeColor::Green);
    assert_ne!(palette.highlight, ThemeColor::LightGreen);
    assert_ne!(palette.success, ThemeColor::Green);
    assert_ne!(palette.success, ThemeColor::LightGreen);
}

#[test]
fn fixed_themes_use_their_rgb_palettes() {
    let slate = Palette::for_theme(ThemeName::Slate, true);
    assert_eq!(slate.surface, ThemeColor::Rgb(20, 25, 35));
    assert_eq!(slate.code_theme, "base16-ocean.dark");
    let solarized = Palette::for_theme(ThemeName::Solarized, false);
    assert_eq!(solarized.danger, ThemeColor::Rgb(220, 50, 47));
    assert_eq!(solarized.code_theme, "Solarized (dark)");
}
