//! The list of results currently shown, and the selection the
//! keyboard moves through it.

use crate::entry::EntryId;
use crate::ui::UISettings;
use vstd::prelude::*;

verus! {

/// A keyboard event, as far as the result list reacts to one.
#[derive(Debug, Clone, Copy, PartialEq, Eq)]
pub enum KeyPress {
    ArrowUp,
    ArrowDown,
    Other,
}

/// The identifiers currently displayed, at most `max_results` of
/// them, with one of them selected.
pub struct SearchResults {
    entries: Vec<EntryId>,
    selected: usize,
    settings: UISettings,
}

impl SearchResults {
    pub closed spec fn spec_entries(&self) -> Seq<EntryId> {
        self.entries@
    }

    pub closed spec fn spec_selected(&self) -> usize {
        self.selected
    }

    pub closed spec fn spec_settings(&self) -> UISettings {
        self.settings
    }

    /// The selection index stays inside the list (or at zero while
    /// the list is empty).
    pub open spec fn wf(&self) -> bool {
        self.spec_selected() == 0 || self.spec_selected() < self.spec_entries().len()
    }

    /// Shows the first `max_results` of `results`, with the top one
    /// selected.
    pub fn new(results: Vec<EntryId>, settings: &UISettings) -> (r: SearchResults)
        ensures
            r.wf(),
            r.spec_entries() == results@.take(
                if results@.len() <= settings.max_results {
                    results@.len() as int
                } else {
                    settings.max_results as int
                },
            ),
            r.spec_selected() == 0,
            r.spec_settings() == *settings,
    {
        let mut entries = results;
        entries.truncate(settings.max_results);
        proof {
            if entries@.len() > settings.max_results {
                assert(false);
            }
        }
        SearchResults { entries, selected: 0, settings: *settings }
    }

    /// Moves the selection to `id`, when that row exists.
    pub fn set_selection(&mut self, id: EntryId)
        requires
            old(self).wf(),
        ensures
            final(self).wf(),
            final(self).spec_entries() == old(self).spec_entries(),
            final(self).spec_settings() == old(self).spec_settings(),
            final(self).spec_selected() == (if id < old(self).spec_entries().len() {
                id
            } else {
                old(self).spec_selected()
            }),
    {
        if id < self.entries.len() {
            self.selected = id;
        }
    }

    /// The identifier of the selected row, while any row is shown.
    pub fn selected(&self) -> (r: Option<EntryId>)
        ensures
            match r {
                Some(id) => self.spec_selected() < self.spec_entries().len() && id
                    == self.spec_entries()[self.spec_selected() as int],
                None => self.spec_selected() >= self.spec_entries().len(),
            },
    {
        if self.selected < self.entries.len() {
            Some(self.entries[self.selected])
        } else {
            None
        }
    }

    /// Moves the selection one row up or down.  Arrow-up moves up
    /// from any row but the top one; arrow-down moves down from any
    /// row below the top that still has a row beneath it.
    pub fn handle_kb(&mut self, event: KeyPress)
        requires
            old(self).wf(),
        ensures
            final(self).wf(),
            final(self).spec_entries() == old(self).spec_entries(),
            final(self).spec_settings() == old(self).spec_settings(),
            final(self).spec_selected() == (match event {
                KeyPress::ArrowUp => if old(self).spec_selected() > 0 {
                    (old(self).spec_selected() - 1) as usize
                } else {
                    old(self).spec_selected()
                },
                KeyPress::ArrowDown => if old(self).spec_selected() > 0 && old(
                    self,
                ).spec_selected() + 1 < old(self).spec_entries().len() {
                    (old(self).spec_selected() + 1) as usize
                } else {
                    old(self).spec_selected()
                },
                KeyPress::Other => old(self).spec_selected(),
            }),
    {
        match event {
            KeyPress::ArrowUp => {
                if self.selected > 0 {
                    self.selected = self.selected - 1;
                }
            },
            KeyPress::ArrowDown => {
                if self.selected > 0 {
                    let max_num = self.entries.len();
                    if self.selected + 1 < max_num {
                        self.selected = self.selected + 1;
                    }
                }
            },
            KeyPress::Other => {},
        }
    }

    /// The identifiers currently displayed, in rank order.
    pub fn entries(&self) -> (r: &[EntryId])
        ensures
            r@ == self.spec_entries(),
    {
        self.entries.as_slice()
    }
}

} // verus!
