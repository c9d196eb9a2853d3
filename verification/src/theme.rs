//! The color themes a user can choose between.

use crate::colormap::Rgb;
use vstd::prelude::*;

verus! {

/// Application theme.
#[derive(Debug, Clone, Copy, PartialEq, Eq, Structural)]
pub enum Theme {
    /// Dark Gruvbox.
    GruvboxDark,
    /// Light Gruvbox.
    GruvboxLight,
}

impl Theme {
    /// The other theme.
    pub open spec fn spec_next(self) -> Theme {
        match self {
            Theme::GruvboxDark => Theme::GruvboxLight,
            Theme::GruvboxLight => Theme::GruvboxDark,
        }
    }

    /// Switches to the other theme.
    #[verifier::when_used_as_spec(spec_next)]
    pub fn next(self) -> (r: Theme)
        ensures
            r == self.spec_next(),
    {
        match self {
            Theme::GruvboxDark => Theme::GruvboxLight,
            Theme::GruvboxLight => Theme::GruvboxDark,
        }
    }

    /// Name shown to the user.
    pub fn name(self) -> (r: &'static str)
        ensures
            r@ == match self {
                Theme::GruvboxDark => "Gruvbox Dark"@,
                Theme::GruvboxLight => "Gruvbox Light"@,
            },
    {
        match self {
            Theme::GruvboxDark => "Gruvbox Dark",
            Theme::GruvboxLight => "Gruvbox Light",
        }
    }
}

/// Switching twice gives the theme one started with.
pub proof fn lemma_theme_toggle(theme: Theme)
    ensures
        theme.spec_next().spec_next() == theme,
        theme.spec_next() != theme,
{
}

/// The colors of a theme.
#[derive(Debug, Clone, Copy, PartialEq, Eq, Structural)]
pub struct ThemeColors {
    /// Background.
    pub bg0: Rgb,
    /// Background of bars.
    pub bg1: Rgb,
    /// Background of borders and selections.
    pub bg2: Rgb,
    /// Text.
    pub fg0: Rgb,
    /// Dimmed text.
    pub fg1: Rgb,
    /// Yellow accent.
    pub yellow: Rgb,
    /// Green accent.
    pub green: Rgb,
    /// Aqua accent.
    pub aqua: Rgb,
    /// Orange accent.
    pub orange: Rgb,
    /// Red accent.
    pub red: Rgb,
    /// Blue accent.
    pub blue: Rgb,
    /// Purple accent.
    pub purple: Rgb,
    /// Neutral gray.
    pub gray: Rgb,
}

/// The color with the given channels.
pub open spec fn rgb(r: u8, g: u8, b: u8) -> Rgb {
    Rgb { r, g, b }
}

/// The Gruvbox colors of a theme: bright accents on dark ground, faded
/// accents on light ground.
pub open spec fn theme_colors(theme: Theme) -> ThemeColors {
    match theme {
        Theme::GruvboxDark => ThemeColors {
            bg0: rgb(0x28, 0x28, 0x28),
            bg1: rgb(0x3c, 0x38, 0x36),
            bg2: rgb(0x66, 0x5c, 0x54),
            fg0: rgb(0xeb, 0xdb, 0xb2),
            fg1: rgb(0xd5, 0xc4, 0xa1),
            yellow: rgb(0xfa, 0xbd, 0x2f),
            green: rgb(0xb8, 0xbb, 0x26),
            aqua: rgb(0x8e, 0xc0, 0x7c),
            orange: rgb(0xfe, 0x80, 0x19),
            red: rgb(0xfb, 0x49, 0x34),
            blue: rgb(0x83, 0xa5, 0x98),
            purple: rgb(0xd3, 0x86, 0x9b),
            gray: rgb(0x92, 0x83, 0x74),
        },
        Theme::GruvboxLight => ThemeColors {
            bg0: rgb(0xfb, 0xf1, 0xc7),
            bg1: rgb(0xeb, 0xdb, 0xb2),
            bg2: rgb(0xd5, 0xc4, 0xa1),
            fg0: rgb(0x3c, 0x38, 0x36),
            fg1: rgb(0x50, 0x49, 0x45),
            yellow: rgb(0xb5, 0x76, 0x14),
            green: rgb(0x79, 0x74, 0x0e),
            aqua: rgb(0x68, 0x9d, 0x6a),
            orange: rgb(0xaf, 0x3a, 0x03),
            red: rgb(0x9d, 0x00, 0x06),
            blue: rgb(0x07, 0x66, 0x78),
            purple: rgb(0x8f, 0x3f, 0x71),
            gray: rgb(0x92, 0x83, 0x74),
        },
    }
}

impl ThemeColors {
    /// The colors of `theme`.
    pub fn from_theme(theme: &Theme) -> (r: ThemeColors)
        ensures
            r == theme_colors(*theme),
    {
        match theme {
            Theme::GruvboxDark => ThemeColors {
                bg0: Rgb { r: 0x28, g: 0x28, b: 0x28 },
                bg1: Rgb { r: 0x3c, g: 0x38, b: 0x36 },
                bg2: Rgb { r: 0x66, g: 0x5c, b: 0x54 },
                fg0: Rgb { r: 0xeb, g: 0xdb, b: 0xb2 },
                fg1: Rgb { r: 0xd5, g: 0xc4, b: 0xa1 },
                yellow: Rgb { r: 0xfa, g: 0xbd, b: 0x2f },
                green: Rgb { r: 0xb8, g: 0xbb, b: 0x26 },
                aqua: Rgb { r: 0x8e, g: 0xc0, b: 0x7c },
                orange: Rgb { r: 0xfe, g: 0x80, b: 0x19 },
                red: Rgb { r: 0xfb, g: 0x49, b: 0x34 },
                blue: Rgb { r: 0x83, g: 0xa5, b: 0x98 },
                purple: Rgb { r: 0xd3, g: 0x86, b: 0x9b },
                gray: Rgb { r: 0x92, g: 0x83, b: 0x74 },
            },
            Theme::GruvboxLight => ThemeColors {
                bg0: Rgb { r: 0xfb, g: 0xf1, b: 0xc7 },
                bg1: Rgb { r: 0xeb, g: 0xdb, b: 0xb2 },
                bg2: Rgb { r: 0xd5, g: 0xc4, b: 0xa1 },
                fg0: Rgb { r: 0x3c, g: 0x38, b: 0x36 },
                fg1: Rgb { r: 0x50, g: 0x49, b: 0x45 },
                yellow: Rgb { r: 0xb5, g: 0x76, b: 0x14 },
                green: Rgb { r: 0x79, g: 0x74, b: 0x0e },
                aqua: Rgb { r: 0x68, g: 0x9d, b: 0x6a },
                orange: Rgb { r: 0xaf, g: 0x3a, b: 0x03 },
                red: Rgb { r: 0x9d, g: 0x00, b: 0x06 },
                blue: Rgb { r: 0x07, g: 0x66, b: 0x78 },
                purple: Rgb { r: 0x8f, g: 0x3f, b: 0x71 },
                gray: Rgb { r: 0x92, g: 0x83, b: 0x74 },
            },
        }
    }
}

} // verus!
