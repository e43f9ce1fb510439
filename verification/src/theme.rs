//! Colour palettes of the interface themes.

use vstd::prelude::*;

verus! {

/// A terminal colour: a named ANSI colour, the terminal's own default, an
/// RGB triple or an index into the 256-colour table.
#[derive(Debug, Clone, Copy, PartialEq, Eq, Structural)]
pub enum ThemeColor {
    Reset,
    Black,
    Red,
    Green,
    Yellow,
    Blue,
    Magenta,
    Cyan,
    Gray,
    DarkGray,
    LightRed,
    LightGreen,
    LightYellow,
    LightBlue,
    LightMagenta,
    LightCyan,
    White,
    Rgb(u8, u8, u8),
    Indexed(u8),
}

/// The interface themes.
#[derive(Debug, Clone, Copy, PartialEq, Eq, Structural)]
pub enum ThemeName {
    Terminal,
    Slate,
    Codex,
    Claude,
    Solarized,
}

/// The colours of one theme, and the code-highlighting theme it pairs
/// with.
#[derive(Debug, Clone, Copy)]
pub struct Palette {
    pub surface: ThemeColor,
    pub surface_alt: ThemeColor,
    pub frame: ThemeColor,
    pub accent: ThemeColor,
    pub highlight: ThemeColor,
    pub text: ThemeColor,
    pub muted: ThemeColor,
    pub success: ThemeColor,
    pub success_bg: ThemeColor,
    pub danger: ThemeColor,
    pub danger_bg: ThemeColor,
    pub diff_context_bg: ThemeColor,
    pub code_theme: &'static str,
}

/// The palette of `theme`. The terminal theme keeps the terminal's own
/// background and text colours and picks its greys and code theme by
/// whether the background is light; the others are fixed RGB palettes.
pub open spec fn is_palette_for(p: Palette, theme: ThemeName, light_bg: bool) -> bool {
    match theme {
        ThemeName::Terminal => p.surface == ThemeColor::Reset && p.surface_alt == ThemeColor::Reset
            && p.frame == (if light_bg { ThemeColor::DarkGray } else { ThemeColor::Gray })
            && p.accent == ThemeColor::Cyan && p.highlight == ThemeColor::Yellow && p.text == ThemeColor::Reset
            && p.muted == (if light_bg { ThemeColor::DarkGray } else { ThemeColor::Gray })
            && p.success == ThemeColor::Cyan && p.success_bg == ThemeColor::Reset && p.danger == ThemeColor::Red
            && p.danger_bg == ThemeColor::Reset && p.diff_context_bg == ThemeColor::Reset
            && p.code_theme@ == (if light_bg { "base16-github.light"@ } else { "base16-eighties.dark"@ }),
        ThemeName::Slate => p.surface == ThemeColor::Rgb(20, 25, 35) && p.surface_alt == ThemeColor::Rgb(28, 34, 46) && p.frame == ThemeColor::Rgb(48, 57, 73) && p.accent == ThemeColor::Rgb(99, 151, 255) && p.highlight == ThemeColor::Rgb(246, 199, 94) && p.text == ThemeColor::Rgb(230, 236, 242) && p.muted == ThemeColor::Rgb(145, 156, 170) && p.success == ThemeColor::Rgb(91, 196, 129) && p.success_bg == ThemeColor::Rgb(22, 48, 36) && p.danger == ThemeColor::Rgb(232, 95, 95) && p.danger_bg == ThemeColor::Rgb(58, 28, 32) && p.diff_context_bg == ThemeColor::Rgb(24, 31, 43)
            && p.code_theme@ == "base16-ocean.dark"@,
        ThemeName::Codex => p.surface == ThemeColor::Rgb(15, 18, 24) && p.surface_alt == ThemeColor::Rgb(26, 30, 39) && p.frame == ThemeColor::Rgb(90, 94, 108) && p.accent == ThemeColor::Rgb(110, 188, 255) && p.highlight == ThemeColor::Rgb(255, 209, 102) && p.text == ThemeColor::Rgb(236, 239, 244) && p.muted == ThemeColor::Rgb(154, 162, 175) && p.success == ThemeColor::Rgb(104, 211, 145) && p.success_bg == ThemeColor::Rgb(18, 50, 34) && p.danger == ThemeColor::Rgb(248, 113, 113) && p.danger_bg == ThemeColor::Rgb(64, 27, 32) && p.diff_context_bg == ThemeColor::Rgb(22, 26, 34)
            && p.code_theme@ == "base16-eighties.dark"@,
        ThemeName::Claude => p.surface == ThemeColor::Rgb(38, 31, 26) && p.surface_alt == ThemeColor::Rgb(54, 44, 36) && p.frame == ThemeColor::Rgb(92, 78, 65) && p.accent == ThemeColor::Rgb(242, 143, 93) && p.highlight == ThemeColor::Rgb(126, 210, 166) && p.text == ThemeColor::Rgb(244, 241, 234) && p.muted == ThemeColor::Rgb(174, 164, 150) && p.success == ThemeColor::Rgb(120, 205, 150) && p.success_bg == ThemeColor::Rgb(37, 58, 43) && p.danger == ThemeColor::Rgb(235, 111, 106) && p.danger_bg == ThemeColor::Rgb(70, 38, 34) && p.diff_context_bg == ThemeColor::Rgb(45, 37, 31)
            && p.code_theme@ == "base16-mocha.dark"@,
        ThemeName::Solarized => p.surface == ThemeColor::Rgb(0, 43, 54) && p.surface_alt == ThemeColor::Rgb(7, 54, 66) && p.frame == ThemeColor::Rgb(88, 110, 117) && p.accent == ThemeColor::Rgb(38, 139, 210) && p.highlight == ThemeColor::Rgb(181, 137, 0) && p.text == ThemeColor::Rgb(238, 232, 213) && p.muted == ThemeColor::Rgb(147, 161, 161) && p.success == ThemeColor::Rgb(133, 153, 0) && p.success_bg == ThemeColor::Rgb(17, 67, 48) && p.danger == ThemeColor::Rgb(220, 50, 47) && p.danger_bg == ThemeColor::Rgb(75, 44, 48) && p.diff_context_bg == ThemeColor::Rgb(5, 50, 61)
            && p.code_theme@ == "Solarized (dark)"@,
    }
}

impl Palette {
    /// The palette of `theme` (see [`is_palette_for`]); `light_bg` is
    /// whether the terminal's background was detected as light.
    pub fn for_theme(theme: ThemeName, light_bg: bool) -> (r: Self)
        ensures
            is_palette_for(r, theme, light_bg),
    {
        match theme {
            ThemeName::Terminal => Palette {
                surface: ThemeColor::Reset,
                surface_alt: ThemeColor::Reset,
                frame: if light_bg { ThemeColor::DarkGray } else { ThemeColor::Gray },
                accent: ThemeColor::Cyan,
                highlight: ThemeColor::Yellow,
                text: ThemeColor::Reset,
                muted: if light_bg { ThemeColor::DarkGray } else { ThemeColor::Gray },
                success: ThemeColor::Cyan,
                success_bg: ThemeColor::Reset,
                danger: ThemeColor::Red,
                danger_bg: ThemeColor::Reset,
                diff_context_bg: ThemeColor::Reset,
                code_theme: if light_bg { "base16-github.light" } else { "base16-eighties.dark" },
            },
            ThemeName::Slate => Palette {
                surface: ThemeColor::Rgb(20, 25, 35),
                surface_alt: ThemeColor::Rgb(28, 34, 46),
                frame: ThemeColor::Rgb(48, 57, 73),
                accent: ThemeColor::Rgb(99, 151, 255),
                highlight: ThemeColor::Rgb(246, 199, 94),
                text: ThemeColor::Rgb(230, 236, 242),
                muted: ThemeColor::Rgb(145, 156, 170),
                success: ThemeColor::Rgb(91, 196, 129),
                success_bg: ThemeColor::Rgb(22, 48, 36),
                danger: ThemeColor::Rgb(232, 95, 95),
                danger_bg: ThemeColor::Rgb(58, 28, 32),
                diff_context_bg: ThemeColor::Rgb(24, 31, 43),
                code_theme: "base16-ocean.dark",
            },
            ThemeName::Codex => Palette {
                surface: ThemeColor::Rgb(15, 18, 24),
                surface_alt: ThemeColor::Rgb(26, 30, 39),
                frame: ThemeColor::Rgb(90, 94, 108),
                accent: ThemeColor::Rgb(110, 188, 255),
                highlight: ThemeColor::Rgb(255, 209, 102),
                text: ThemeColor::Rgb(236, 239, 244),
                muted: ThemeColor::Rgb(154, 162, 175),
                success: ThemeColor::Rgb(104, 211, 145),
                success_bg: ThemeColor::Rgb(18, 50, 34),
                danger: ThemeColor::Rgb(248, 113, 113),
                danger_bg: ThemeColor::Rgb(64, 27, 32),
                diff_context_bg: ThemeColor::Rgb(22, 26, 34),
                code_theme: "base16-eighties.dark",
            },
            ThemeName::Claude => Palette {
                surface: ThemeColor::Rgb(38, 31, 26),
                surface_alt: ThemeColor::Rgb(54, 44, 36),
                frame: ThemeColor::Rgb(92, 78, 65),
                accent: ThemeColor::Rgb(242, 143, 93),
                highlight: ThemeColor::Rgb(126, 210, 166),
                text: ThemeColor::Rgb(244, 241, 234),
                muted: ThemeColor::Rgb(174, 164, 150),
                success: ThemeColor::Rgb(120, 205, 150),
                success_bg: ThemeColor::Rgb(37, 58, 43),
                danger: ThemeColor::Rgb(235, 111, 106),
                danger_bg: ThemeColor::Rgb(70, 38, 34),
                diff_context_bg: ThemeColor::Rgb(45, 37, 31),
                code_theme: "base16-mocha.dark",
            },
            ThemeName::Solarized => Palette {
                surface: ThemeColor::Rgb(0, 43, 54),
                surface_alt: ThemeColor::Rgb(7, 54, 66),
                frame: ThemeColor::Rgb(88, 110, 117),
                accent: ThemeColor::Rgb(38, 139, 210),
                highlight: ThemeColor::Rgb(181, 137, 0),
                text: ThemeColor::Rgb(238, 232, 213),
                muted: ThemeColor::Rgb(147, 161, 161),
                success: ThemeColor::Rgb(133, 153, 0),
                success_bg: ThemeColor::Rgb(17, 67, 48),
                danger: ThemeColor::Rgb(220, 50, 47),
                danger_bg: ThemeColor::Rgb(75, 44, 48),
                diff_context_bg: ThemeColor::Rgb(5, 50, 61),
                code_theme: "Solarized (dark)",
            },
        }
    }
}

/// The terminal theme never paints its own surfaces, leaving them to the
/// terminal, and does not highlight or mark success in green.
pub proof fn law_terminal_theme_keeps_terminal_surfaces(p: Palette, light_bg: bool)
    requires
        is_palette_for(p, ThemeName::Terminal, light_bg),
    ensures
        p.surface == ThemeColor::Reset,
        p.surface_alt == ThemeColor::Reset,
        p.text == ThemeColor::Reset,
        p.diff_context_bg == ThemeColor::Reset,
        p.success_bg == ThemeColor::Reset,
        p.danger_bg == ThemeColor::Reset,
        p.highlight != ThemeColor::Green && p.highlight != ThemeColor::LightGreen,
        p.success != ThemeColor::Green && p.success != ThemeColor::LightGreen,
{
}

} // verus!
