//! The program's settings: everything read from the `config` table
//! of the configuration file.

use crate::log::LogSettings;
use crate::ui::UISettings;
use vstd::prelude::*;

verus! {

/// All settings of one run.
#[derive(Debug, Clone, PartialEq)]
pub struct Settings {
    pub ui: UISettings,
    pub log: LogSettings,
}

impl Default for Settings {
    fn default() -> (r: Self)
        ensures
            r.ui.width == 800,
            r.ui.theme == crate::theme::DefaultTheme::Light.theme_spec(),
            r.ui.common.spec_text_size() is None,
            r.ui.search.padding == 10,
            r.ui.search.common.spec_text_size() is None,
            r.ui.entry.common.spec_text_size() is None,
            r.ui.max_results == 5,
            r.log.file is None,
            r.log.filters@.len() == 0,
    {
        Settings { ui: UISettings::default(), log: LogSettings::default() }
    }
}

} // verus!
