use suntheme::config::{ThemePair, Themes};
use suntheme::geocode::geocode_url;
use suntheme::mode::{InvalidThemeMode, ThemeMode};
use suntheme::telemetry::{has_sent_telemetry, ping_is_due, recorded_consent};
use suntheme::themes::{
    get_theme_presets, is_similar, preset_for_selection, suggest_similar, validate_ghostty_theme,
    PRESET_COUNT,
};

#[test]
fn geocode_url_percent_encodes_the_query() {
    assert_eq!(
        geocode_url("Berlin"),
        "https://nominatim.openstreetmap.org/search?q=Berlin&format=json&limit=5"
    );
    assert_eq!(
        geocode_url("New York, NY"),
        "https://nominatim.openstreetmap.org/search?q=New%20York%2C%20NY&format=json&limit=5"
    );
    assert_eq!(
        geocode_url("S\u{e3}o Paulo"),
        "https://nominatim.openstreetmap.org/search?q=S%C3%A3o%20Paulo&format=json&limit=5"
    );
    assert_eq!(
        geocode_url("a-b_c.d~e/f?g&h=i+j"),
        "https://nominatim.openstreetmap.org/search?q=a-b_c.d~e%2Ff%3Fg%26h%3Di%2Bj&format=json&limit=5"
    );
    assert_eq!(
        geocode_url(""),
        "https://nominatim.openstreetmap.org/search?q=&format=json&limit=5"
    );
}

#[test]
fn theme_pair_picks_by_mode() {
    let pair = ThemePair { light: "l".to_string(), dark: "d".to_string() };
    assert_eq!(pair.for_mode(ThemeMode::Light), "l");
    assert_eq!(pair.for_mode(ThemeMode::Dark), "d");
}

#[test]
fn default_themes_are_rose_pine() {
    let themes = Themes::default();
    assert_eq!(themes.ghostty.light, "rose-pine-dawn");
    assert_eq!(themes.ghostty.dark, "rose-pine");
    assert_eq!(themes.neovim.light, "rose-pine-dawn");
    assert_eq!(themes.neovim.dark, "rose-pine");
}

#[test]
fn presets_are_complete_and_in_order() {
    let presets = get_theme_presets();
    assert_eq!(presets.len(), 23);
    assert_eq!(presets.len(), PRESET_COUNT);
    assert_eq!(presets[0].display_name, "Tokyo Night");
    assert_eq!(presets[0].ghostty_dark, "TokyoNight");
    assert_eq!(presets[0].ghostty_light, "TokyoNight Day");
    assert_eq!(presets[0].neovim_dark, "tokyonight");
    assert_eq!(presets[0].neovim_light, "tokyonight-day");
    assert_eq!(presets[5].display_name, "Rose Pine");
    assert_eq!(presets[5].ghostty_light, "Rose Pine Dawn");
    assert_eq!(presets[22].display_name, "Seoulbones");
    assert_eq!(presets[22].neovim_light, "seoulbones");
    let mut names: Vec<&str> = presets.iter().map(|p| p.display_name).collect();
    names.sort();
    names.dedup();
    assert_eq!(names.len(), 23);
}

#[test]
fn selection_beyond_the_presets_means_custom() {
    assert_eq!(preset_for_selection(3).unwrap().display_name, "Nord");
    assert_eq!(preset_for_selection(22).unwrap().display_name, "Seoulbones");
    assert!(preset_for_selection(23).is_none());
    assert!(preset_for_selection(usize::MAX).is_none());
}

#[test]
fn preset_becomes_themes() {
    let themes = preset_for_selection(1).unwrap().to_themes();
    assert_eq!(themes.ghostty.light, "Gruvbox Light");
    assert_eq!(themes.ghostty.dark, "Gruvbox Dark");
    assert_eq!(themes.neovim.light, "gruvbox");
    assert_eq!(themes.neovim.dark, "gruvbox");
}

#[test]
fn telemetry_counts_as_sent_only_with_a_known_marker() {
    assert!(has_sent_telemetry(Some(true)));
    assert!(!has_sent_telemetry(Some(false)));
    assert!(!has_sent_telemetry(None));
}

#[test]
fn ping_goes_out_once_after_a_first_setup_with_consent() {
    assert!(ping_is_due(true, true, Some(false)));
    assert!(ping_is_due(true, true, None));
    assert!(!ping_is_due(true, true, Some(true)));
    assert!(!ping_is_due(false, true, Some(false)));
    assert!(!ping_is_due(true, false, Some(false)));
}

#[test]
fn consent_is_asked_for_only_when_none_is_on_record() {
    assert_eq!(recorded_consent(None), None);
    assert_eq!(recorded_consent(Some(None)), None);
    assert_eq!(recorded_consent(Some(Some(true))), Some(true));
    assert_eq!(recorded_consent(Some(Some(false))), Some(false));
}

#[test]
fn mode_names_are_matched_after_lower_casing() {
    assert_eq!(ThemeMode::parse("dArK").unwrap(), ThemeMode::Dark);
    // The Kelvin sign lower-cases to an ordinary k.
    assert_eq!(ThemeMode::parse("DAR\u{212A}").unwrap(), ThemeMode::Dark);
    assert!(ThemeMode::parse(" light").is_err());
    assert_eq!(ThemeMode::from_name("light"), Some(ThemeMode::Light));
    assert_eq!(ThemeMode::from_name("Light"), None);
    assert_eq!(ThemeMode::from_name("dark"), Some(ThemeMode::Dark));
    assert_eq!(ThemeMode::from_name(""), None);
}

#[test]
fn invalid_mode_quotes_the_text_as_given() {
    let err: InvalidThemeMode = ThemeMode::parse("Purple").unwrap_err();
    assert_eq!(err.given, "Purple");
    assert_eq!(err.message(), "Invalid theme mode: Purple. Use 'light' or 'dark'.");
}

fn installed() -> Vec<String> {
    ["Nord", "Nord Light", "nordfox", "Dracula", "Gruvbox Dark", "NORD-WAVE", "nord2", "nord3"]
        .iter()
        .map(|s| s.to_string())
        .collect()
}

#[test]
fn theme_is_known_only_under_its_exact_name() {
    assert!(validate_ghostty_theme("Nord", &installed()));
    assert!(validate_ghostty_theme("Gruvbox Dark", &installed()));
    assert!(!validate_ghostty_theme("nord", &installed()));
    assert!(!validate_ghostty_theme("Gruvbox", &installed()));
    assert!(!validate_ghostty_theme("Nord", &Vec::new()));
}

#[test]
fn similar_names_contain_one_another_whatever_the_case() {
    assert!(is_similar("nord", "Nord Light"));
    assert!(is_similar("Nord Light", "nord"));
    assert!(is_similar("GRUV", "Gruvbox Dark"));
    assert!(is_similar("", "anything"));
    assert!(!is_similar("nord", "Dracula"));
    assert!(!is_similar("nord light", "light nord"));
}

#[test]
fn at_most_five_suggestions_in_the_order_given() {
    assert_eq!(
        suggest_similar("nord", &installed()),
        vec!["Nord", "Nord Light", "nordfox", "NORD-WAVE", "nord2"]
    );
    assert_eq!(suggest_similar("dark", &installed()), vec!["Gruvbox Dark"]);
    assert_eq!(suggest_similar("solarized", &installed()), Vec::<String>::new());
    assert_eq!(suggest_similar("nord", &Vec::new()), Vec::<String>::new());
}
