use suntheme::daemon::parse_pid;
use suntheme::switcher::{recorded_mode, ThemeSwitcher};
use suntheme::text::{contains_text, split_lines, trim};

/// A small deterministic generator of test inputs.
struct Gen(u64);

impl Gen {
    fn next(&mut self) -> u64 {
        self.0 = self.0.wrapping_mul(6364136223846793005).wrapping_add(1442695040888963407);
        self.0 >> 33
    }

    fn text(&mut self, alphabet: &[char], max_len: u64) -> String {
        let len = self.next() % (max_len + 1);
        (0..len).map(|_| alphabet[(self.next() % alphabet.len() as u64) as usize]).collect()
    }
}

const SETTINGS_ALPHABET: [char; 12] =
    ['t', 'h', 'e', 'm', ' ', '=', '\n', '\r', '\t', 'x', '\u{a0}', '\u{e9}'];

fn update_with_std(content: &str, theme_name: &str) -> String {
    let mut lines: Vec<String> = content.lines().map(|s| s.to_string()).collect();
    let place = lines.iter().position(|line| {
        let trimmed = line.trim();
        trimmed.starts_with("theme")
            && trimmed.find('=').map(|eq| trimmed[..eq].trim() == "theme").unwrap_or(false)
    });
    match place {
        Some(i) => lines[i] = format!("theme = {}", theme_name),
        None => lines.insert(0, format!("theme = {}", theme_name)),
    }
    lines.join("\n") + "\n"
}

#[test]
fn settings_update_agrees_with_the_standard_library_on_generated_files() {
    let mut gen = Gen(1);
    for _ in 0..20_000 {
        let mut content = gen.text(&SETTINGS_ALPHABET, 24);
        if gen.next() % 3 == 0 {
            content.push_str("\ntheme = old\n");
            content.push_str(&gen.text(&SETTINGS_ALPHABET, 8));
        }
        assert_eq!(
            ThemeSwitcher::update_ghostty_theme(&content, "new"),
            update_with_std(&content, "new"),
            "{:?}",
            content
        );
    }
}

#[test]
fn lines_and_trim_agree_with_the_standard_library_on_generated_texts() {
    let mut gen = Gen(2);
    let alphabet = ['a', ' ', '\n', '\r', '\t', '\u{2003}', '\u{85}', 'b', '\u{feff}', '\u{200b}'];
    for _ in 0..20_000 {
        let text = gen.text(&alphabet, 16);
        let chars: Vec<char> = text.chars().collect();
        let ours: Vec<String> = split_lines(&chars).iter().map(|l| l.iter().collect()).collect();
        let theirs: Vec<String> = text.lines().map(|l| l.to_string()).collect();
        assert_eq!(ours, theirs, "{:?}", text);
        let trimmed: String = trim(&chars).iter().collect();
        assert_eq!(trimmed, text.trim(), "{:?}", text);
    }
}

#[test]
fn pid_parsing_agrees_with_the_standard_library_on_generated_texts() {
    let mut gen = Gen(3);
    let alphabet = ['0', '1', '2', '9', '-', '+', ' ', '\n', '4', '7', 'x', '8'];
    for _ in 0..50_000 {
        let text = gen.text(&alphabet, 13);
        assert_eq!(parse_pid(&text), text.trim().parse::<i32>().ok(), "{:?}", text);
    }
}

#[test]
fn substring_search_agrees_with_the_standard_library_on_generated_texts() {
    let mut gen = Gen(4);
    let alphabet = ['a', 'b', 'c'];
    for _ in 0..20_000 {
        let hay = gen.text(&alphabet, 10);
        let needle = gen.text(&alphabet, 4);
        assert_eq!(contains_text(&hay, &needle), hay.contains(&needle), "{:?} {:?}", hay, needle);
    }
}

#[test]
fn recorded_mode_agrees_with_the_standard_library_on_generated_files() {
    let mut gen = Gen(5);
    let alphabet = ['m', 'o', 'd', 'e', '=', '\n', 'l', 'i', 'g', 'h', 't', 'D', 'A', 'R', 'K', '\r'];
    let words = ["mode=light", "mode=DARK", "mode=dusk", "mode=", "theme=x", " mode=dark"];
    for _ in 0..20_000 {
        let mut content = gen.text(&alphabet, 6);
        for _ in 0..(gen.next() % 3) {
            content.push('\n');
            content.push_str(words[(gen.next() % words.len() as u64) as usize]);
            content.push_str(&gen.text(&alphabet, 2));
        }
        let expected = content
            .lines()
            .find_map(|line| line.strip_prefix("mode="))
            .map(|word| match word.to_lowercase().as_str() {
                "light" => Ok(suntheme::mode::ThemeMode::Light),
                "dark" => Ok(suntheme::mode::ThemeMode::Dark),
                _ => Err(word.to_string()),
            });
        let ours = recorded_mode(&content);
        match expected {
            None => assert_eq!(ours.unwrap(), None, "{:?}", content),
            Some(Ok(mode)) => assert_eq!(ours.unwrap(), Some(mode), "{:?}", content),
            Some(Err(word)) => assert_eq!(ours.unwrap_err().given, word, "{:?}", content),
        }
    }
}
