use suntheme::daemon::{is_running, parse_pid};
use suntheme::neovim::init_lua_with_require;
use suntheme::text::{contains_text, parse_decimal_i32};

#[test]
fn pid_is_read_with_white_space_around_it() {
    assert_eq!(parse_pid("12345\n"), Some(12345));
    assert_eq!(parse_pid("  42  "), Some(42));
    assert_eq!(parse_pid("0"), Some(0));
    assert_eq!(parse_pid("+7"), Some(7));
    assert_eq!(parse_pid("-7"), Some(-7));
    assert_eq!(parse_pid("007"), Some(7));
}

#[test]
fn pid_that_is_no_number_is_refused() {
    for bad in ["", "\n", "abc", "12a", "1 2", "-", "+", "--1", "+-1", "1.0", "0x10", "１２"] {
        assert_eq!(parse_pid(bad), None, "{:?}", bad);
    }
}

#[test]
fn pid_out_of_range_is_refused() {
    assert_eq!(parse_pid("2147483647"), Some(i32::MAX));
    assert_eq!(parse_pid("2147483648"), None);
    assert_eq!(parse_pid("-2147483648"), Some(i32::MIN));
    assert_eq!(parse_pid("-2147483649"), None);
    assert_eq!(parse_pid("99999999999999999999999999999999999999"), None);
    assert_eq!(parse_pid("-99999999999999999999999999999999999999"), None);
    assert_eq!(parse_pid("00000000000000000000000000000000000012"), Some(12));
}

#[test]
fn decimal_parse_agrees_with_the_standard_library() {
    let samples = [
        "", "0", "-0", "+0", "1", "-1", "+1", "10", "2147483647", "2147483648", "-2147483648",
        "-2147483649", "4294967296", "000", "-", "+", "++1", "1+", "1-", " 1", "1 ", "a", "9a",
        "12345678901234567890", "-12345678901234567890", "٣", "1_000",
    ];
    for sample in samples {
        let chars: Vec<char> = sample.chars().collect();
        assert_eq!(parse_decimal_i32(&chars), sample.parse::<i32>().ok(), "{:?}", sample);
    }
    for value in [-100_000, -1, 0, 1, 65_535, 1_000_000, i32::MAX, i32::MIN] {
        let chars: Vec<char> = value.to_string().chars().collect();
        assert_eq!(parse_decimal_i32(&chars), Some(value));
    }
}

#[test]
fn running_needs_a_pid_and_a_live_process() {
    assert!(is_running(Some(10), true));
    assert!(!is_running(Some(10), false));
    assert!(!is_running(None, true));
    assert!(!is_running(None, false));
}

#[test]
fn substring_search_agrees_with_the_standard_library() {
    let hays = ["", "a", "abc", "aaa", "abcabc", "require('suntheme')", "xrequire(\"suntheme\")y"];
    let needles = ["", "a", "b", "bc", "abc", "abcd", "ca", "aa", "require('suntheme')"];
    for hay in hays {
        for needle in needles {
            assert_eq!(contains_text(hay, needle), hay.contains(needle), "{:?} in {:?}", needle, hay);
        }
    }
}

#[test]
fn missing_start_up_file_gets_the_loading_line_alone() {
    assert_eq!(init_lua_with_require(None).unwrap(), "require(\"suntheme\")\n");
}

#[test]
fn start_up_file_without_the_line_gets_it_first() {
    assert_eq!(
        init_lua_with_require(Some("vim.o.number = true\n")).unwrap(),
        "require(\"suntheme\")\nvim.o.number = true\n"
    );
    assert_eq!(init_lua_with_require(Some("")).unwrap(), "require(\"suntheme\")\n");
    assert_eq!(
        init_lua_with_require(Some("require(\"sunthemes\")")).unwrap(),
        "require(\"suntheme\")\nrequire(\"sunthemes\")"
    );
}

#[test]
fn start_up_file_with_the_line_is_left_alone() {
    assert!(init_lua_with_require(Some("require(\"suntheme\")\n")).is_none());
    assert!(init_lua_with_require(Some("x = 1\nrequire('suntheme')\n")).is_none());
    assert!(init_lua_with_require(Some("-- require(\"suntheme\")")).is_none());
}
