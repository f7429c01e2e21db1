//! Theme names: the ready-made pairings on offer, and help with names that
//! are entered by hand.

use vstd::prelude::*;

use crate::text::{chars_of, contains_chars, has_substring, lowercase, same_text};

verus! {

/// A named pairing of terminal and editor themes, one of each for dark and
/// for light.
#[derive(Clone, Copy, Debug)]
pub struct ThemePreset {
    pub display_name: &'static str,
    pub ghostty_dark: &'static str,
    pub ghostty_light: &'static str,
    pub neovim_dark: &'static str,
    pub neovim_light: &'static str,
}

/// The number of presets on offer.
pub const PRESET_COUNT: usize = 23;

/// The presets, in the order in which they are offered. The terminal's theme
/// names are written in title case, as it lists them.
pub open spec fn preset_table() -> Seq<ThemePreset> {
    seq![
        ThemePreset {
            display_name: "Tokyo Night",
            ghostty_dark: "TokyoNight",
            ghostty_light: "TokyoNight Day",
            neovim_dark: "tokyonight",
            neovim_light: "tokyonight-day",
        },
        ThemePreset {
            display_name: "Gruvbox",
            ghostty_dark: "Gruvbox Dark",
            ghostty_light: "Gruvbox Light",
            neovim_dark: "gruvbox",
            neovim_light: "gruvbox",
        },
        ThemePreset {
            display_name: "Catppuccin",
            ghostty_dark: "Catppuccin Mocha",
            ghostty_light: "Catppuccin Latte",
            neovim_dark: "catppuccin",
            neovim_light: "catppuccin",
        },
        ThemePreset {
            display_name: "Nord",
            ghostty_dark: "Nord",
            ghostty_light: "Nord Light",
            neovim_dark: "nord",
            neovim_light: "nord",
        },
        ThemePreset {
            display_name: "Bluloco",
            ghostty_dark: "Bluloco Dark",
            ghostty_light: "Bluloco Light",
            neovim_dark: "bluloco-dark",
            neovim_light: "bluloco-light",
        },
        ThemePreset {
            display_name: "Rose Pine",
            ghostty_dark: "Rose Pine",
            ghostty_light: "Rose Pine Dawn",
            neovim_dark: "rose-pine",
            neovim_light: "rose-pine",
        },
        ThemePreset {
            display_name: "Horizon",
            ghostty_dark: "Horizon",
            ghostty_light: "Horizon Bright",
            neovim_dark: "horizon",
            neovim_light: "horizon",
        },
        ThemePreset {
            display_name: "One Dark (Atom)",
            ghostty_dark: "Atom One Dark",
            ghostty_light: "Atom One Light",
            neovim_dark: "onedark",
            neovim_light: "onelight",
        },
        ThemePreset {
            display_name: "Everforest",
            ghostty_dark: "Everforest Dark Hard",
            ghostty_light: "Everforest Light Med",
            neovim_dark: "everforest",
            neovim_light: "everforest",
        },
        ThemePreset {
            display_name: "GitHub",
            ghostty_dark: "GitHub Dark",
            ghostty_light: "GitHub Light Default",
            neovim_dark: "github_dark",
            neovim_light: "github_light",
        },
        ThemePreset {
            display_name: "Nightfox",
            ghostty_dark: "Nightfox",
            ghostty_light: "Dayfox",
            neovim_dark: "nightfox",
            neovim_light: "dayfox",
        },
        ThemePreset {
            display_name: "Monokai Pro",
            ghostty_dark: "Monokai Pro",
            ghostty_light: "Monokai Pro Light",
            neovim_dark: "monokai-pro",
            neovim_light: "monokai-pro",
        },
        ThemePreset {
            display_name: "Material",
            ghostty_dark: "Material Dark",
            ghostty_light: "Material",
            neovim_dark: "material",
            neovim_light: "material",
        },
        ThemePreset {
            display_name: "Ayu",
            ghostty_dark: "Ayu",
            ghostty_light: "Ayu Light",
            neovim_dark: "ayu-dark",
            neovim_light: "ayu-light",
        },
        ThemePreset {
            display_name: "Night Owl",
            ghostty_dark: "Night Owl",
            ghostty_light: "Light Owl",
            neovim_dark: "night-owl",
            neovim_light: "night-owl",
        },
        ThemePreset {
            display_name: "Iceberg",
            ghostty_dark: "Iceberg Dark",
            ghostty_light: "Iceberg Light",
            neovim_dark: "iceberg",
            neovim_light: "iceberg",
        },
        ThemePreset {
            display_name: "Flexoki",
            ghostty_dark: "Flexoki Dark",
            ghostty_light: "Flexoki Light",
            neovim_dark: "flexoki-dark",
            neovim_light: "flexoki-light",
        },
        ThemePreset {
            display_name: "Melange",
            ghostty_dark: "Melange Dark",
            ghostty_light: "Melange Light",
            neovim_dark: "melange",
            neovim_light: "melange",
        },
        ThemePreset {
            display_name: "Zenbones",
            ghostty_dark: "Zenbones Dark",
            ghostty_light: "Zenbones Light",
            neovim_dark: "zenbones",
            neovim_light: "zenbones",
        },
        ThemePreset {
            display_name: "Pencil",
            ghostty_dark: "Pencil Dark",
            ghostty_light: "Pencil Light",
            neovim_dark: "pencil",
            neovim_light: "pencil",
        },
        ThemePreset {
            display_name: "Selenized",
            ghostty_dark: "Selenized Dark",
            ghostty_light: "Selenized Light",
            neovim_dark: "selenized",
            neovim_light: "selenized",
        },
        ThemePreset {
            display_name: "Neobones",
            ghostty_dark: "Neobones Dark",
            ghostty_light: "Neobones Light",
            neovim_dark: "neobones",
            neovim_light: "neobones",
        },
        ThemePreset {
            display_name: "Seoulbones",
            ghostty_dark: "Seoulbones Dark",
            ghostty_light: "Seoulbones Light",
            neovim_dark: "seoulbones",
            neovim_light: "seoulbones",
        },
    ]
}

/// All presets, in the order of [`preset_table`].
pub fn get_theme_presets() -> (presets: Vec<ThemePreset>)
    ensures
        presets@ == preset_table(),
        presets@.len() == PRESET_COUNT,
{
    let presets = vec![
        ThemePreset {
            display_name: "Tokyo Night",
            ghostty_dark: "TokyoNight",
            ghostty_light: "TokyoNight Day",
            neovim_dark: "tokyonight",
            neovim_light: "tokyonight-day",
        },
        ThemePreset {
            display_name: "Gruvbox",
            ghostty_dark: "Gruvbox Dark",
            ghostty_light: "Gruvbox Light",
            neovim_dark: "gruvbox",
            neovim_light: "gruvbox",
        },
        ThemePreset {
            display_name: "Catppuccin",
            ghostty_dark: "Catppuccin Mocha",
            ghostty_light: "Catppuccin Latte",
            neovim_dark: "catppuccin",
            neovim_light: "catppuccin",
        },
        ThemePreset {
            display_name: "Nord",
            ghostty_dark: "Nord",
            ghostty_light: "Nord Light",
            neovim_dark: "nord",
            neovim_light: "nord",
        },
        ThemePreset {
            display_name: "Bluloco",
            ghostty_dark: "Bluloco Dark",
            ghostty_light: "Bluloco Light",
            neovim_dark: "bluloco-dark",
            neovim_light: "bluloco-light",
        },
        ThemePreset {
            display_name: "Rose Pine",
            ghostty_dark: "Rose Pine",
            ghostty_light: "Rose Pine Dawn",
            neovim_dark: "rose-pine",
            neovim_light: "rose-pine",
        },
        ThemePreset {
            display_name: "Horizon",
            ghostty_dark: "Horizon",
            ghostty_light: "Horizon Bright",
            neovim_dark: "horizon",
            neovim_light: "horizon",
        },
        ThemePreset {
            display_name: "One Dark (Atom)",
            ghostty_dark: "Atom One Dark",
            ghostty_light: "Atom One Light",
            neovim_dark: "onedark",
            neovim_light: "onelight",
        },
        ThemePreset {
            display_name: "Everforest",
            ghostty_dark: "Everforest Dark Hard",
            ghostty_light: "Everforest Light Med",
            neovim_dark: "everforest",
            neovim_light: "everforest",
        },
        ThemePreset {
            display_name: "GitHub",
            ghostty_dark: "GitHub Dark",
            ghostty_light: "GitHub Light Default",
            neovim_dark: "github_dark",
            neovim_light: "github_light",
        },
        ThemePreset {
            display_name: "Nightfox",
            ghostty_dark: "Nightfox",
            ghostty_light: "Dayfox",
            neovim_dark: "nightfox",
            neovim_light: "dayfox",
        },
        ThemePreset {
            display_name: "Monokai Pro",
            ghostty_dark: "Monokai Pro",
            ghostty_light: "Monokai Pro Light",
            neovim_dark: "monokai-pro",
            neovim_light: "monokai-pro",
        },
        ThemePreset {
            display_name: "Material",
            ghostty_dark: "Material Dark",
            ghostty_light: "Material",
            neovim_dark: "material",
            neovim_light: "material",
        },
        ThemePreset {
            display_name: "Ayu",
            ghostty_dark: "Ayu",
            ghostty_light: "Ayu Light",
            neovim_dark: "ayu-dark",
            neovim_light: "ayu-light",
        },
        ThemePreset {
            display_name: "Night Owl",
            ghostty_dark: "Night Owl",
            ghostty_light: "Light Owl",
            neovim_dark: "night-owl",
            neovim_light: "night-owl",
        },
        ThemePreset {
            display_name: "Iceberg",
            ghostty_dark: "Iceberg Dark",
            ghostty_light: "Iceberg Light",
            neovim_dark: "iceberg",
            neovim_light: "iceberg",
        },
        ThemePreset {
            display_name: "Flexoki",
            ghostty_dark: "Flexoki Dark",
            ghostty_light: "Flexoki Light",
            neovim_dark: "flexoki-dark",
            neovim_light: "flexoki-light",
        },
        ThemePreset {
            display_name: "Melange",
            ghostty_dark: "Melange Dark",
            ghostty_light: "Melange Light",
            neovim_dark: "melange",
            neovim_light: "melange",
        },
        ThemePreset {
            display_name: "Zenbones",
            ghostty_dark: "Zenbones Dark",
            ghostty_light: "Zenbones Light",
            neovim_dark: "zenbones",
            neovim_light: "zenbones",
        },
        ThemePreset {
            display_name: "Pencil",
            ghostty_dark: "Pencil Dark",
            ghostty_light: "Pencil Light",
            neovim_dark: "pencil",
            neovim_light: "pencil",
        },
        ThemePreset {
            display_name: "Selenized",
            ghostty_dark: "Selenized Dark",
            ghostty_light: "Selenized Light",
            neovim_dark: "selenized",
            neovim_light: "selenized",
        },
        ThemePreset {
            display_name: "Neobones",
            ghostty_dark: "Neobones Dark",
            ghostty_light: "Neobones Light",
            neovim_dark: "neobones",
            neovim_light: "neobones",
        },
        ThemePreset {
            display_name: "Seoulbones",
            ghostty_dark: "Seoulbones Dark",
            ghostty_light: "Seoulbones Light",
            neovim_dark: "seoulbones",
            neovim_light: "seoulbones",
        },
    ];
    assert(presets@ =~= preset_table());
    presets
}

/// The preset behind the `selection`-th entry of a menu that lists the
/// presets in order and one further entry, for themes entered by hand, after
/// them. Nothing stands for that further entry and for anything beyond it.
pub fn preset_for_selection(selection: usize) -> (preset: Option<ThemePreset>)
    ensures
        preset == if selection < PRESET_COUNT {
            Some(preset_table()[selection as int])
        } else {
            None
        },
{
    let presets = get_theme_presets();
    if selection < presets.len() {
        Some(presets[selection])
    } else {
        None
    }
}

/// The names that a vector of strings holds.
pub open spec fn names(v: Seq<String>) -> Seq<Seq<char>> {
    Seq::new(v.len(), |i: int| v[i]@)
}

/// Whether a theme of exactly this name is among the available ones.
pub fn validate_ghostty_theme(theme: &str, available: &Vec<String>) -> (known: bool)
    ensures
        known == names(available@).contains(theme@),
{
    let mut i: usize = 0;
    while i < available.len()
        invariant
            i <= available.len(),
            forall|j: int| 0 <= j < i ==> names(available@)[j] != theme@,
        decreases available.len() - i,
    {
        if same_text(available[i].as_str(), theme) {
            assert(names(available@)[i as int] == theme@);
            return true;
        }
        i += 1;
    }
    false
}

/// Whether two theme names are similar: brought to lower case, one of them
/// occurs in the other.
pub open spec fn similar(theme: Seq<char>, candidate: Seq<char>) -> bool {
    has_substring(lowercase(candidate), lowercase(theme)) || has_substring(
        lowercase(theme),
        lowercase(candidate),
    )
}

/// Those of `available` that are similar to `theme`, in the order in which
/// they stand.
pub open spec fn similar_among(theme: Seq<char>, available: Seq<Seq<char>>) -> Seq<Seq<char>>
    decreases available.len(),
{
    if available.len() == 0 {
        Seq::empty()
    } else if similar(theme, available.last()) {
        similar_among(theme, available.drop_last()).push(available.last())
    } else {
        similar_among(theme, available.drop_last())
    }
}

/// The most names that are suggested at once.
pub const MAX_SUGGESTIONS: usize = 5;

/// The names suggested for `theme`: the first few of `available` that are
/// similar to it.
pub open spec fn suggestions_for(theme: Seq<char>, available: Seq<Seq<char>>) -> Seq<Seq<char>> {
    let all = similar_among(theme, available);
    if all.len() > MAX_SUGGESTIONS {
        all.take(MAX_SUGGESTIONS as int)
    } else {
        all
    }
}

/// What is similar among the first `k` names stands at the front of what is
/// similar among all of them.
pub proof fn lemma_similar_among_front(theme: Seq<char>, available: Seq<Seq<char>>, k: int)
    requires
        0 <= k <= available.len(),
    ensures
        similar_among(theme, available.take(k)).len() <= similar_among(theme, available).len(),
        similar_among(theme, available).take(
            similar_among(theme, available.take(k)).len() as int,
        ) == similar_among(theme, available.take(k)),
    decreases available.len(),
{
    if k == available.len() {
        assert(available.take(k) == available);
    } else {
        assert(available.drop_last().take(k) == available.take(k));
        lemma_similar_among_front(theme, available.drop_last(), k);
    }
}

/// Whether two theme names are similar.
pub fn is_similar(theme: &str, candidate: &str) -> (b: bool)
    ensures
        b == similar(theme@, candidate@),
{
    let theme_lower = theme.to_lowercase();
    let candidate_lower = candidate.to_lowercase();
    let t = chars_of(theme_lower.as_str());
    let c = chars_of(candidate_lower.as_str());
    contains_chars(&c, &t) || contains_chars(&t, &c)
}

/// Up to five of the available names that are similar to `theme`, in the
/// order in which they stand in `available`.
pub fn suggest_similar(theme: &str, available: &Vec<String>) -> (suggested: Vec<String>)
    ensures
        names(suggested@) == suggestions_for(theme@, names(available@)),
{
    let mut suggested: Vec<String> = Vec::new();
    let mut i: usize = 0;
    assert(names(available@).take(0) == Seq::<Seq<char>>::empty());
    while i < available.len() && suggested.len() < MAX_SUGGESTIONS
        invariant
            i <= available.len(),
            suggested.len() <= MAX_SUGGESTIONS,
            names(suggested@) == similar_among(theme@, names(available@).take(i as int)),
        decreases available.len() - i,
    {
        let ghost before = names(suggested@);
        assert(names(available@).take(i + 1).drop_last() == names(available@).take(i as int));
        if is_similar(theme, available[i].as_str()) {
            suggested.push(available[i].clone());
            assert(names(suggested@) == before.push(available@[i as int]@));
        }
        i += 1;
    }
    proof {
        lemma_similar_among_front(theme@, names(available@), i as int);
        if i == available.len() {
            assert(names(available@).take(i as int) == names(available@));
        }
    }
    suggested
}

} // verus!
