//! The theme names that the user has settled on.

use vstd::prelude::*;
use vstd::string::StringExecFns;

use crate::mode::ThemeMode;
use crate::themes::ThemePreset;

verus! {

/// The theme of one application for each of the two modes.
#[derive(Debug, Clone)]
pub struct ThemePair {
    pub light: String,
    pub dark: String,
}

/// The theme pairs of the applications that follow the mode.
#[derive(Debug, Clone)]
pub struct Themes {
    pub ghostty: ThemePair,
    pub neovim: ThemePair,
}

impl ThemePair {
    /// The name of the theme for `mode`, as a sequence of characters.
    pub open spec fn name_for(&self, mode: ThemeMode) -> Seq<char> {
        match mode {
            ThemeMode::Light => self.light@,
            ThemeMode::Dark => self.dark@,
        }
    }

    /// The theme to use in `mode`.
    pub fn for_mode(&self, mode: ThemeMode) -> (name: &str)
        ensures
            name@ == self.name_for(mode),
    {
        match mode {
            ThemeMode::Light => self.light.as_str(),
            ThemeMode::Dark => self.dark.as_str(),
        }
    }
}

impl Default for Themes {
    /// The themes used until the user has chosen: Rosé Pine, dawn by day.
    fn default() -> (themes: Themes)
        ensures
            themes.ghostty.light@ == "rose-pine-dawn"@,
            themes.ghostty.dark@ == "rose-pine"@,
            themes.neovim.light@ == "rose-pine-dawn"@,
            themes.neovim.dark@ == "rose-pine"@,
    {
        Themes {
            ghostty: ThemePair {
                light: String::from_str("rose-pine-dawn"),
                dark: String::from_str("rose-pine"),
            },
            neovim: ThemePair {
                light: String::from_str("rose-pine-dawn"),
                dark: String::from_str("rose-pine"),
            },
        }
    }
}

impl ThemePreset {
    /// The themes that choosing this preset settles on.
    pub fn to_themes(&self) -> (themes: Themes)
        ensures
            themes.ghostty.light@ == self.ghostty_light@,
            themes.ghostty.dark@ == self.ghostty_dark@,
            themes.neovim.light@ == self.neovim_light@,
            themes.neovim.dark@ == self.neovim_dark@,
    {
        Themes {
            ghostty: ThemePair {
                light: String::from_str(self.ghostty_light),
                dark: String::from_str(self.ghostty_dark),
            },
            neovim: ThemePair {
                light: String::from_str(self.neovim_light),
                dark: String::from_str(self.neovim_dark),
            },
        }
    }
}

} // verus!
