//! Color themes.  A theme is four plain RGBA colors; the light and
//! dark base themes are fixed, and the embedding application decides
//! which base to start from (for example by asking the operating
//! system for its dark-mode preference) and overrides single colors
//! from its configuration.

use crate::ui::Color;
use vstd::prelude::*;

verus! {

/// The accent color used when the platform offers none of its own.
pub fn accent_color() -> (c: Color)
    ensures
        c == (Color { r: 0x5E, g: 0x7C, b: 0xE2, a: 0xFF }),
{
    Color { r: 0x5E, g: 0x7C, b: 0xE2, a: 0xFF }
}

/// The colors the window is drawn with.
#[derive(Debug, Clone, Copy, PartialEq, Eq, Structural)]
pub struct Theme {
    pub background_color: Color,
    pub text_color: Color,
    pub accent_color: Color,
    pub selected_text_color: Color,
}

/// Which base theme unset colors fall back to.
#[derive(Debug, Clone, Copy, PartialEq, Eq, Structural)]
pub enum DefaultTheme {
    Light,
    Dark,
}

impl DefaultTheme {
    /// The base theme to use for a dark-mode preference.
    pub fn from_dark_flag(dark: bool) -> (r: DefaultTheme)
        ensures
            r == (if dark {
                DefaultTheme::Dark
            } else {
                DefaultTheme::Light
            }),
    {
        if dark {
            DefaultTheme::Dark
        } else {
            DefaultTheme::Light
        }
    }

    /// The colors of this base theme.
    pub open spec fn theme_spec(self) -> Theme {
        match self {
            DefaultTheme::Light => Theme {
                background_color: Color { r: 0xFF, g: 0xFF, b: 0xFF, a: 0xFF },
                text_color: Color { r: 0x00, g: 0x00, b: 0x00, a: 0xFF },
                accent_color: Color { r: 0x5E, g: 0x7C, b: 0xE2, a: 0xFF },
                selected_text_color: Color { r: 0xFF, g: 0xFF, b: 0xFF, a: 0xFF },
            },
            DefaultTheme::Dark => Theme {
                background_color: Color { r: 0x20, g: 0x22, b: 0x25, a: 0xFF },
                text_color: Color { r: 0xB3, g: 0xB3, b: 0xB3, a: 0xFF },
                accent_color: Color { r: 0x5E, g: 0x7C, b: 0xE2, a: 0xFF },
                selected_text_color: Color { r: 0x00, g: 0x00, b: 0x00, a: 0xFF },
            },
        }
    }

    /// White on a light background, or grey text on a near-black
    /// one; the accent color is shared.
    pub fn theme(self) -> (r: Theme)
        ensures
            r == self.theme_spec(),
    {
        match self {
            DefaultTheme::Light => Theme {
                background_color: Color { r: 0xFF, g: 0xFF, b: 0xFF, a: 0xFF },
                text_color: Color { r: 0x00, g: 0x00, b: 0x00, a: 0xFF },
                accent_color: accent_color(),
                selected_text_color: Color { r: 0xFF, g: 0xFF, b: 0xFF, a: 0xFF },
            },
            DefaultTheme::Dark => Theme {
                background_color: Color { r: 0x20, g: 0x22, b: 0x25, a: 0xFF },
                text_color: Color { r: 0xB3, g: 0xB3, b: 0xB3, a: 0xFF },
                accent_color: accent_color(),
                selected_text_color: Color { r: 0x00, g: 0x00, b: 0x00, a: 0xFF },
            },
        }
    }
}

impl Theme {
    /// A base theme with single colors overridden from the
    /// configuration: each color that the configuration sets
    /// replaces the base theme's, and the rest keep the base
    /// theme's values.
    pub fn with_overrides(
        base: DefaultTheme,
        background_color: Option<Color>,
        text_color: Option<Color>,
        accent_color: Option<Color>,
        selected_text_color: Option<Color>,
    ) -> (r: Theme)
        ensures
            r.background_color == (match background_color {
                Some(c) => c,
                None => base.theme_spec().background_color,
            }),
            r.text_color == (match text_color {
                Some(c) => c,
                None => base.theme_spec().text_color,
            }),
            r.accent_color == (match accent_color {
                Some(c) => c,
                None => base.theme_spec().accent_color,
            }),
            r.selected_text_color == (match selected_text_color {
                Some(c) => c,
                None => base.theme_spec().selected_text_color,
            }),
    {
        let mut theme = base.theme();
        if let Some(c) = background_color {
            theme.background_color = c;
        }
        if let Some(c) = text_color {
            theme.text_color = c;
        }
        if let Some(c) = accent_color {
            theme.accent_color = c;
        }
        if let Some(c) = selected_text_color {
            theme.selected_text_color = c;
        }
        theme
    }
}

/// How a result row's button is drawn.
#[derive(Debug, Clone, Copy, PartialEq, Eq, Structural)]
pub enum ButtonStyle {
    Transparent,
    Selected,
}

impl Default for ButtonStyle {
    fn default() -> (r: Self)
        ensures
            r is Transparent,
    {
        ButtonStyle::Transparent
    }
}

/// How the window's outer container is drawn.
#[derive(Debug, Clone, Copy, PartialEq, Eq, Structural)]
pub enum ContainerStyle {
    Transparent,
    Error,
}

} // verus!
