//! Plain settings data for the user interface: sizes are inherited
//! from parent settings when unset, and colors are plain RGBA
//! values (the embedding application parses CSS color names into
//! them).

use vstd::prelude::*;

verus! {

/// An RGBA color, eight bits per channel.
#[derive(Debug, Clone, Copy, PartialEq, Eq, Structural)]
pub struct Color {
    pub r: u8,
    pub g: u8,
    pub b: u8,
    pub a: u8,
}

impl Color {
    pub fn from_rgba8(r: u8, g: u8, b: u8, a: u8) -> (c: Color)
        ensures
            c == (Color { r, g, b, a }),
    {
        Color { r, g, b, a }
    }
}

/// The text size a setting falls back to when neither it nor any
/// parent sets one.
pub const DEFAULT_TEXT_SIZE: u16 = 20;

/// Settings that child settings inherit from their parent when they
/// do not set their own value.
#[derive(Debug, Clone, Copy, PartialEq, Eq)]
pub struct InheritedSettings {
    text_size: Option<u16>,
}

impl InheritedSettings {
    /// The explicitly set text size, if any.
    pub closed spec fn spec_text_size(&self) -> Option<u16> {
        self.text_size
    }

    /// The text size in effect: the set one, or the default.
    pub open spec fn effective_text_size(&self) -> u16 {
        match self.spec_text_size() {
            Some(t) => t,
            None => DEFAULT_TEXT_SIZE,
        }
    }

    pub fn new(text_size: Option<u16>) -> (r: InheritedSettings)
        ensures
            r.spec_text_size() == text_size,
    {
        InheritedSettings { text_size }
    }

    /// The text size in effect.
    pub fn text_size(&self) -> (r: u16)
        ensures
            r == self.effective_text_size(),
    {
        match self.text_size {
            Some(t) => t,
            None => DEFAULT_TEXT_SIZE,
        }
    }

    /// Fills every unset value from the parent.
    pub fn propagate(&mut self, parent: &InheritedSettings)
        ensures
            final(self).spec_text_size() == (if old(self).spec_text_size() is None {
                parent.spec_text_size()
            } else {
                old(self).spec_text_size()
            }),
    {
        if self.text_size.is_none() {
            self.text_size = parent.text_size;
        }
    }
}

impl Default for InheritedSettings {
    /// No explicit text size.
    fn default() -> (r: Self)
        ensures
            r.spec_text_size() is None,
    {
        InheritedSettings { text_size: None }
    }
}

/// Settings for the search box at the top of the window.
#[derive(Debug, Clone, Copy, PartialEq, Eq)]
pub struct SearchSettings {
    pub padding: u16,
    pub common: InheritedSettings,
}

impl SearchSettings {
    /// The window height needed to show the search box alone: its
    /// text plus padding above and below.
    pub fn starting_height(&self) -> (r: u32)
        ensures
            r == self.common.effective_text_size() + 2 * self.padding as u32,
    {
        self.common.text_size() as u32 + 2 * self.padding as u32
    }

    /// Fills every unset value from the parent.
    pub fn propagate(&mut self, parent: &InheritedSettings)
        ensures
            final(self).common.spec_text_size() == (if old(self).common.spec_text_size() is None {
                parent.spec_text_size()
            } else {
                old(self).common.spec_text_size()
            }),
            final(self).padding == old(self).padding,
    {
        self.common.propagate(parent);
    }
}

impl Default for SearchSettings {
    /// Ten units of padding, no explicit text size.
    fn default() -> (r: Self)
        ensures
            r.padding == 10,
            r.common.spec_text_size() is None,
    {
        SearchSettings { padding: 10, common: InheritedSettings { text_size: None } }
    }
}

/// Top-level settings for the window: its width, theme, result
/// count limit, and the per-widget settings that inherit from
/// `common`.
#[derive(Debug, Clone, Copy, PartialEq, Eq)]
pub struct UISettings {
    pub width: u32,
    pub theme: crate::theme::Theme,
    pub common: InheritedSettings,
    pub search: SearchSettings,
    pub entry: crate::display::EntrySettings,
    pub max_results: usize,
}

impl UISettings {
    /// Pushes the shared settings down into each widget's settings.
    pub fn propagate(&mut self)
        ensures
            final(self).entry.common.spec_text_size() == (if old(
                self,
            ).entry.common.spec_text_size() is None {
                old(self).common.spec_text_size()
            } else {
                old(self).entry.common.spec_text_size()
            }),
            final(self).search.common.spec_text_size() == (if old(
                self,
            ).search.common.spec_text_size() is None {
                old(self).common.spec_text_size()
            } else {
                old(self).search.common.spec_text_size()
            }),
            final(self).width == old(self).width,
            final(self).theme == old(self).theme,
            final(self).common == old(self).common,
            final(self).search.padding == old(self).search.padding,
            final(self).entry.selected_color == old(self).entry.selected_color,
            final(self).max_results == old(self).max_results,
    {
        let common = self.common;
        self.entry.propagate(&common);
        self.search.propagate(&common);
    }
}

impl Default for UISettings {
    /// An 800-unit-wide window showing at most five results, with
    /// the light theme and everything else inherited.
    fn default() -> (r: Self)
        ensures
            r.width == 800,
            r.theme == crate::theme::DefaultTheme::Light.theme_spec(),
            r.common.spec_text_size() is None,
            r.search.padding == 10,
            r.search.common.spec_text_size() is None,
            r.entry.selected_color == (Color { r: 0x5E, g: 0x7C, b: 0xE2, a: 0xFF }),
            r.entry.common.spec_text_size() is None,
            r.max_results == 5,
    {
        UISettings {
            width: 800,
            theme: crate::theme::DefaultTheme::Light.theme(),
            common: InheritedSettings { text_size: None },
            search: SearchSettings::default(),
            entry: crate::display::EntrySettings::default(),
            max_results: 5,
        }
    }
}

} // verus!
