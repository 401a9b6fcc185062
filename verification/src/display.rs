//! One displayed result row: its settings, and the row value the
//! renderer draws (title text, selection state).

use crate::entry::{format_name_spec, StoreEntry};
use crate::ui::{Color, InheritedSettings};
use vstd::prelude::*;

verus! {

/// Settings for a result row.
#[derive(Debug, Clone, Copy, PartialEq, Eq)]
pub struct EntrySettings {
    pub selected_color: Color,
    pub common: InheritedSettings,
}

impl EntrySettings {
    /// Fills every unset value from the parent.
    pub fn propagate(&mut self, parent: &InheritedSettings)
        ensures
            final(self).common.spec_text_size() == (if old(self).common.spec_text_size() is None {
                parent.spec_text_size()
            } else {
                old(self).common.spec_text_size()
            }),
            final(self).selected_color == old(self).selected_color,
    {
        self.common.propagate(parent);
    }

    /// The height of one row: its text plus a fixed margin.
    pub fn height(&self) -> (r: u16)
        requires
            self.common.effective_text_size() + 10 <= u16::MAX,
        ensures
            r == self.common.effective_text_size() + 10,
    {
        self.common.text_size() + 10
    }
}

impl Default for EntrySettings {
    /// The default accent as the selection color, no explicit text
    /// size.
    fn default() -> (r: Self)
        ensures
            r.selected_color == (Color { r: 0x5E, g: 0x7C, b: 0xE2, a: 0xFF }),
            r.common.spec_text_size() is None,
    {
        EntrySettings {
            selected_color: crate::theme::accent_color(),
            common: InheritedSettings::new(None),
        }
    }
}

/// One row as the renderer draws it: the entry's formatted title
/// and whether the row is the selected one.
#[derive(Debug)]
pub struct Entry<'a> {
    selected: bool,
    entry: &'a StoreEntry,
    title: String,
    settings: EntrySettings,
}

impl<'a> Entry<'a> {
    pub closed spec fn spec_selected(&self) -> bool {
        self.selected
    }

    pub closed spec fn spec_title(&self) -> Seq<char> {
        self.title@
    }

    pub closed spec fn spec_settings(&self) -> EntrySettings {
        self.settings
    }

    /// A row for `entry`, titled with the entry's formatted name
    /// under the current query, initially unselected.
    pub fn new(searchtext: &str, entry: &'a StoreEntry, settings: &EntrySettings) -> (r: Entry<'a>)
        ensures
            !r.spec_selected(),
            r.spec_title() == format_name_spec(entry@, searchtext@),
            r.spec_settings() == *settings,
    {
        Entry { selected: false, entry, title: entry.format_name(searchtext), settings: *settings }
    }

    /// The same row, marked selected.
    pub fn selected(self) -> (r: Entry<'a>)
        ensures
            r.spec_selected(),
            r.spec_title() == self.spec_title(),
            r.spec_settings() == self.spec_settings(),
    {
        Entry { selected: true, ..self }
    }

    /// The title text to draw.
    pub fn title(&self) -> (r: &String)
        ensures
            r@ == self.spec_title(),
    {
        &self.title
    }

    /// Whether to draw the row highlighted.
    pub fn is_selected(&self) -> (r: bool)
        ensures
            r == self.spec_selected(),
    {
        self.selected
    }

    /// The row's settings.
    pub fn settings(&self) -> (r: &EntrySettings)
        ensures
            *r == self.spec_settings(),
    {
        &self.settings
    }
}

} // verus!
