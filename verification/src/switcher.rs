//! What has to be written where for a mode to take effect.
//!
//! Two files carry a mode to the applications. The terminal's settings file
//! gets its `theme` line set, and a small state file tells the editor which
//! theme and background to use. The state file is also the record of the
//! mode that was applied last. This module computes the new contents of both
//! files from the old ones; reading and writing them is the caller's part.

use vstd::prelude::*;
use vstd::string::StringExecFns;

use crate::config::Themes;
use crate::mode::{mode_named, InvalidThemeMode, ThemeMode};
use crate::text::{
    chars_of,
    find_char,
    has_prefix,
    is_whitespace,
    join_lines,
    lemma_position_of,
    lemma_trim_end_shape,
    lines_of,
    lowercase,
    position_of,
    same_chars,
    slice_of,
    split_lines,
    starts_with,
    string_of,
    texts,
    trim,
    trim_end,
    trimmed,
    with_newlines,
};

verus! {

/// The settings line that selects `theme`.
pub open spec fn theme_line(theme: Seq<char>) -> Seq<char> {
    "theme = "@ + theme
}

/// Whether a settings line sets the theme: apart from white space around it,
/// it begins with `theme`, and what stands before its first equals sign is
/// `theme` and white space.
pub open spec fn sets_theme(line: Seq<char>) -> bool {
    let t = trimmed(line);
    starts_with(t, "theme"@) && match position_of(t, '=') {
        Some(p) => trimmed(t.subrange(0, p)) == "theme"@,
        None => false,
    }
}

/// Whether line `i` is the first of `lines` that sets the theme.
pub open spec fn is_first_setting(lines: Seq<Seq<char>>, i: int) -> bool {
    &&& 0 <= i < lines.len()
    &&& sets_theme(lines[i])
    &&& forall|j: int| 0 <= j < i ==> !sets_theme(lines[j])
}

/// `lines` with the theme set to `theme`: the first line that sets the theme
/// is replaced, and where there is none a new line is put before all others.
pub open spec fn with_theme(lines: Seq<Seq<char>>, theme: Seq<char>) -> Seq<Seq<char>> {
    if exists|i: int| is_first_setting(lines, i) {
        lines.update(choose|i: int| is_first_setting(lines, i), theme_line(theme))
    } else {
        seq![theme_line(theme)] + lines
    }
}

/// The settings file `content` with the theme set to `theme`. Every line of
/// the result ends in a line feed.
pub open spec fn updated_settings(content: Seq<char>, theme: Seq<char>) -> Seq<char> {
    with_newlines(with_theme(lines_of(content), theme))
}

/// A settings file that does nothing but select `theme`.
pub open spec fn fresh_settings(theme: Seq<char>) -> Seq<char> {
    theme_line(theme) + seq!['\n']
}

/// The state file for `mode` with the editor theme `theme`.
pub open spec fn state_record(mode: ThemeMode, theme: Seq<char>) -> Seq<char> {
    "mode="@ + mode.name() + "\ntheme="@ + theme + "\nbackground="@ + mode.name() + "\n"@
}

/// Whether line `i` is the first of `lines` that begins with `mode=`.
pub open spec fn is_mode_entry(lines: Seq<Seq<char>>, i: int) -> bool {
    &&& 0 <= i < lines.len()
    &&& starts_with(lines[i], "mode="@)
    &&& forall|j: int| 0 <= j < i ==> !starts_with(lines[j], "mode="@)
}

/// What the state file `content` says after `mode=`, on the first line that
/// begins so.
pub open spec fn mode_entry(content: Seq<char>) -> Option<Seq<char>> {
    let lines = lines_of(content);
    if exists|i: int| is_mode_entry(lines, i) {
        let line = lines[choose|i: int| is_mode_entry(lines, i)];
        Some(line.subrange(5, line.len() as int))
    } else {
        None
    }
}

/// The first line that sets the theme is the only one that
/// [`is_first_setting`] holds of.
pub proof fn lemma_first_setting(lines: Seq<Seq<char>>, i: int, theme: Seq<char>)
    requires
        is_first_setting(lines, i),
    ensures
        with_theme(lines, theme) == lines.update(i, theme_line(theme)),
{
}

/// The first line that begins with `mode=` is the only one that
/// [`is_mode_entry`] holds of.
pub proof fn lemma_mode_entry(content: Seq<char>, i: int)
    requires
        is_mode_entry(lines_of(content), i),
    ensures
        mode_entry(content) == Some(
            lines_of(content)[i].subrange(5, lines_of(content)[i].len() as int),
        ),
{
}

/// Setting the theme keeps every other line as it was, and the number of
/// lines grows by at most one.
pub proof fn lemma_other_lines_kept(lines: Seq<Seq<char>>, theme: Seq<char>)
    ensures
        with_theme(lines, theme).len() == lines.len() || (with_theme(lines, theme).len()
            == lines.len() + 1 && with_theme(lines, theme).drop_first() == lines),
        with_theme(lines, theme).contains(theme_line(theme)),
        with_theme(lines, theme).len() == lines.len() ==> exists|i: int|
            is_first_setting(lines, i) && with_theme(lines, theme) == lines.update(
                i,
                theme_line(theme),
            ),
{
    if exists|i: int| is_first_setting(lines, i) {
        let k = choose|k: int| is_first_setting(lines, k);
        assert(with_theme(lines, theme)[k] == theme_line(theme));
    } else {
        assert(with_theme(lines, theme)[0] == theme_line(theme));
    }
}

/// The line that selects a theme is itself a line that sets the theme,
/// whatever the theme is called.
pub proof fn lemma_theme_line_sets_theme(theme: Seq<char>)
    ensures
        sets_theme(theme_line(theme)),
{
    reveal_strlit("theme = ");
    reveal_strlit("theme");
    let line = theme_line(theme);
    let head = "theme = "@;
    assert forall|i: int| 0 <= i < 8 implies line[i] == head[i] by {}
    lemma_trim_end_shape(line);
    let t = trimmed(line);
    assert(t.len() > 6) by {
        if t.len() <= 6 {
            assert(is_whitespace(line[6]));
        }
    }
    assert(t.subrange(0, 5) == "theme"@);
    lemma_position_of(t, '=', 6);
    let before = t.subrange(0, 6);
    assert(trim_end(before) == trim_end(before.drop_last()));
    assert(trimmed(before) == "theme"@);
}

/// Setting the theme a second time puts the second theme where the first
/// was put: of the two, only the last one set remains.
pub proof fn lemma_last_theme_wins(lines: Seq<Seq<char>>, first: Seq<char>, second: Seq<char>)
    ensures
        with_theme(with_theme(lines, first), second) == with_theme(lines, second),
{
    lemma_theme_line_sets_theme(first);
    let once = with_theme(lines, first);
    if exists|i: int| is_first_setting(lines, i) {
        let k = choose|k: int| is_first_setting(lines, k);
        assert(is_first_setting(once, k));
        lemma_first_setting(once, k, second);
    } else {
        lemma_first_setting(once, 0, second);
    }
}

/// Whether a settings line sets the theme.
pub fn line_sets_theme(line: &Vec<char>) -> (b: bool)
    ensures
        b == sets_theme(line@),
{
    let keyword = chars_of("theme");
    let t = trim(line);
    if !has_prefix(&t, &keyword) {
        return false;
    }
    match find_char(&t, '=') {
        Some(p) => {
            let before = slice_of(&t, 0, p);
            let name = trim(&before);
            same_chars(&name, &keyword)
        },
        None => false,
    }
}

/// A settings file that does nothing but select `theme_name`.
pub fn new_ghostty_settings(theme_name: &str) -> (settings: String)
    ensures
        settings@ == fresh_settings(theme_name@),
{
    let mut settings = String::from_str("theme = ");
    settings.append(theme_name);
    settings.append("\n");
    proof {
        reveal_strlit("\n");
    }
    settings
}

/// The state file for `mode` with the editor theme `theme_name`: the mode,
/// the theme and the background, one `key=value` line each.
pub fn state_file_content(mode: ThemeMode, theme_name: &str) -> (content: String)
    ensures
        content@ == state_record(mode, theme_name@),
{
    let mut content = String::from_str("mode=");
    content.append(mode.as_str());
    content.append("\ntheme=");
    content.append(theme_name);
    content.append("\nbackground=");
    content.append(mode.as_str());
    content.append("\n");
    content
}

/// The mode that the state file `content` records.
///
/// The first line that begins with `mode=` decides. What follows on it has to
/// name a mode, in any case of letters. A file without such a line records
/// nothing.
pub fn recorded_mode(content: &str) -> (r: Result<Option<ThemeMode>, InvalidThemeMode>)
    ensures
        match mode_entry(content@) {
            None => r == Ok::<Option<ThemeMode>, InvalidThemeMode>(None),
            Some(word) => match mode_named(lowercase(word)) {
                Some(mode) => r == Ok::<Option<ThemeMode>, InvalidThemeMode>(Some(mode)),
                None => r matches Err(e) && e.given@ == word,
            },
        },
{
    let key = chars_of("mode=");
    proof {
        reveal_strlit("mode=");
    }
    let content_chars = chars_of(content);
    let lines = split_lines(&content_chars);
    let mut i: usize = 0;
    while i < lines.len()
        invariant
            i <= lines.len(),
            key@ == "mode="@,
            key@.len() == 5,
            texts(lines@) == lines_of(content@),
            forall|j: int| 0 <= j < i ==> !starts_with(lines_of(content@)[j], "mode="@),
        decreases lines.len() - i,
    {
        if has_prefix(&lines[i], &key) {
            proof {
                lemma_mode_entry(content@, i as int);
            }
            let word = slice_of(&lines[i], 5, lines[i].len());
            let word = string_of(&word);
            return match ThemeMode::parse(word.as_str()) {
                Ok(mode) => Ok(Some(mode)),
                Err(e) => Err(e),
            };
        }
        i += 1;
    }
    Ok(None)
}

/// The mode that a manual toggle switches to: the opposite of the mode
/// applied last, and dark where none is on record.
pub fn toggle_target(current: Option<ThemeMode>) -> (target: ThemeMode)
    ensures
        target == match current {
            Some(mode) => mode.spec_opposite(),
            None => ThemeMode::Dark,
        },
{
    match current {
        Some(mode) => mode.opposite(),
        None => ThemeMode::Dark,
    }
}

/// What applying a mode writes.
#[derive(Debug, Clone)]
pub struct ThemeWrites {
    /// The new content of the terminal's settings file.
    pub ghostty_settings: String,
    /// Whether the terminal has to be told to read its settings again. A
    /// settings file that is created needs no such telling.
    pub reload_ghostty: bool,
    /// The new content of the state file.
    pub state_file: String,
}

/// Turns a mode into the file contents that make it take effect, by the
/// themes that the user has chosen.
#[derive(Debug, Clone)]
pub struct ThemeSwitcher {
    pub themes: Themes,
}

impl ThemeSwitcher {
    /// A switcher for the given themes.
    pub fn new(themes: Themes) -> (switcher: ThemeSwitcher)
        ensures
            switcher.themes == themes,
    {
        ThemeSwitcher { themes }
    }

    /// The settings file `content` with the theme set to `theme_name`.
    pub fn update_ghostty_theme(content: &str, theme_name: &str) -> (updated: String)
        ensures
            updated@ == updated_settings(content@, theme_name@),
    {
        let mut new_line = chars_of("theme = ");
        let mut name = chars_of(theme_name);
        new_line.append(&mut name);
        let content_chars = chars_of(content);
        let mut lines = split_lines(&content_chars);
        let ghost old_lines = texts(lines@);
        let mut i: usize = 0;
        let mut found = false;
        while i < lines.len() && !found
            invariant
                i <= lines.len(),
                !found ==> texts(lines@) == old_lines,
                !found ==> forall|j: int| 0 <= j < i ==> !sets_theme(old_lines[j]),
                found ==> texts(lines@) == with_theme(old_lines, theme_name@),
                new_line@ == theme_line(theme_name@),
            decreases lines.len() - i + if found { 0int } else { 1int },
        {
            if line_sets_theme(&lines[i]) {
                proof {
                    lemma_first_setting(old_lines, i as int, theme_name@);
                }
                lines.set(i, new_line.clone());
                found = true;
            } else {
                i += 1;
            }
        }
        if !found {
            lines.insert(0, new_line);
            assert(texts(lines@) == seq![theme_line(theme_name@)] + old_lines);
        }
        let joined = join_lines(&lines);
        string_of(&joined)
    }

    /// What has to be written for `mode` to take effect, given the present
    /// content of the terminal's settings file, if that file exists.
    pub fn apply_theme(&self, mode: ThemeMode, ghostty_settings: Option<&str>) -> (writes:
        ThemeWrites)
        ensures
            writes.ghostty_settings@ == match ghostty_settings {
                Some(content) => updated_settings(content@, self.themes.ghostty.name_for(mode)),
                None => fresh_settings(self.themes.ghostty.name_for(mode)),
            },
            writes.reload_ghostty == ghostty_settings is Some,
            writes.state_file@ == state_record(mode, self.themes.neovim.name_for(mode)),
    {
        let terminal_theme = self.themes.ghostty.for_mode(mode);
        let editor_theme = self.themes.neovim.for_mode(mode);
        let (settings, reload) = match ghostty_settings {
            Some(content) => (ThemeSwitcher::update_ghostty_theme(content, terminal_theme), true),
            None => (new_ghostty_settings(terminal_theme), false),
        };
        ThemeWrites {
            ghostty_settings: settings,
            reload_ghostty: reload,
            state_file: state_file_content(mode, editor_theme),
        }
    }

    /// The mode that was applied last, read from the content of the state
    /// file, if that file exists.
    pub fn get_current_mode(&self, state_file: Option<&str>) -> (r: Result<
        Option<ThemeMode>,
        InvalidThemeMode,
    >)
        ensures
            match state_file {
                None => r == Ok::<Option<ThemeMode>, InvalidThemeMode>(None),
                Some(content) => match mode_entry(content@) {
                    None => r == Ok::<Option<ThemeMode>, InvalidThemeMode>(None),
                    Some(word) => match mode_named(lowercase(word)) {
                        Some(mode) => r == Ok::<Option<ThemeMode>, InvalidThemeMode>(Some(mode)),
                        None => r matches Err(e) && e.given@ == word,
                    },
                },
            },
    {
        match state_file {
            Some(content) => recorded_mode(content),
            None => Ok(None),
        }
    }
}

} // verus!
