use suntheme::mode::ThemeMode;

#[test]
fn test_theme_mode_as_str() {
    assert_eq!(ThemeMode::Light.as_str(), "light");
    assert_eq!(ThemeMode::Dark.as_str(), "dark");
}

#[test]
fn test_theme_mode_opposite() {
    assert_eq!(ThemeMode::Light.opposite(), ThemeMode::Dark);
    assert_eq!(ThemeMode::Dark.opposite(), ThemeMode::Light);
}

#[test]
fn test_theme_mode_display() {
    assert_eq!(ThemeMode::Light.to_string(), "light");
    assert_eq!(ThemeMode::Dark.to_string(), "dark");
}

#[test]
fn test_theme_mode_from_str() {
    assert_eq!("light".parse::<ThemeMode>().unwrap(), ThemeMode::Light);
    assert_eq!("dark".parse::<ThemeMode>().unwrap(), ThemeMode::Dark);
    assert_eq!("LIGHT".parse::<ThemeMode>().unwrap(), ThemeMode::Light);
    assert_eq!("Dark".parse::<ThemeMode>().unwrap(), ThemeMode::Dark);
}

#[test]
fn test_theme_mode_from_str_invalid() {
    assert!("invalid".parse::<ThemeMode>().is_err());
    assert!("".parse::<ThemeMode>().is_err());
}

#[test]
fn opposite_of_the_opposite_is_the_mode_itself() {
    for mode in [ThemeMode::Light, ThemeMode::Dark] {
        assert_eq!(mode.opposite().opposite(), mode);
        assert_ne!(mode.opposite(), mode);
    }
}
