use suntheme::text::{
    char_is_whitespace, chars_of, find_char, has_prefix, join_lines, same_chars, same_text,
    split_lines, string_of, trim,
};

fn chars(s: &str) -> Vec<char> {
    s.chars().collect()
}

fn text(v: &[char]) -> String {
    v.iter().collect()
}

const SAMPLES: [&str; 16] = [
    "",
    "\n",
    "a",
    "a\n",
    "a\nb",
    "a\r\nb\r\n",
    "a\rb\n",
    "a\r",
    "\r\n\r\n",
    "\n\n\n",
    "one\n\ntwo\r\n\r\nthree",
    "  padded  \n\tindented\n",
    "\r",
    "x\r\r\n",
    "caf\u{e9} \u{3000}\n\u{2028}z",
    "trailing\n\r",
];

#[test]
fn whitespace_agrees_with_the_standard_library_on_every_character() {
    for code in 0..=0x10FFFF_u32 {
        if let Some(c) = char::from_u32(code) {
            assert_eq!(char_is_whitespace(c), c.is_whitespace(), "U+{:04X}", code);
        }
    }
}

#[test]
fn lines_agree_with_the_standard_library() {
    for sample in SAMPLES {
        let ours: Vec<String> = split_lines(&chars(sample)).iter().map(|l| text(l)).collect();
        let theirs: Vec<String> = sample.lines().map(|l| l.to_string()).collect();
        assert_eq!(ours, theirs, "{:?}", sample);
    }
}

#[test]
fn trim_agrees_with_the_standard_library() {
    for sample in SAMPLES {
        assert_eq!(text(&trim(&chars(sample))), sample.trim(), "{:?}", sample);
    }
    assert_eq!(text(&trim(&chars(" \u{a0}\u{2003} a b \u{3000}\n"))), "a b");
    assert_eq!(text(&trim(&chars("   "))), "");
}

#[test]
fn chars_and_strings_convert_both_ways() {
    for sample in SAMPLES {
        assert_eq!(chars_of(sample), chars(sample));
        assert_eq!(string_of(&chars(sample)), sample);
    }
    assert_eq!(string_of(&vec!['a', 'b']), "ab");
}

#[test]
fn same_text_compares_character_by_character() {
    assert!(same_text("", ""));
    assert!(same_text("OK", "OK"));
    assert!(!same_text("OK", "Ok"));
    assert!(!same_text("OK", "OK "));
    assert!(!same_text("abc", "abd"));
    assert!(same_chars(&chars("xyz"), &chars("xyz")));
    assert!(!same_chars(&chars("xyz"), &chars("xy")));
}

#[test]
fn prefix_and_search() {
    assert!(has_prefix(&chars("theme = x"), &chars("theme")));
    assert!(has_prefix(&chars("theme"), &chars("theme")));
    assert!(has_prefix(&chars("theme"), &chars("")));
    assert!(!has_prefix(&chars("them"), &chars("theme")));
    assert!(!has_prefix(&chars("a theme"), &chars("theme")));
    assert_eq!(find_char(&chars("a=b=c"), '='), Some(1));
    assert_eq!(find_char(&chars("abc"), '='), None);
    assert_eq!(find_char(&chars(""), '='), None);
    assert_eq!(find_char(&chars("="), '='), Some(0));
}

#[test]
fn joining_ends_every_line_with_a_line_feed() {
    assert_eq!(text(&join_lines(&vec![chars("a"), chars(""), chars("b")])), "a\n\nb\n");
    assert_eq!(text(&join_lines(&vec![])), "");
    assert_eq!(text(&join_lines(&vec![chars("only")])), "only\n");
}
