use status_bar::numbers::decimal_text;
use status_bar::numbers::parse_i32;
use status_bar::numbers::parse_u32;
use status_bar::numbers::parse_u64;
use status_bar::numbers::unsigned_text;
use status_bar::text::find;
use status_bar::text::find_line;
use status_bar::text::is_white_space;
use status_bar::text::line_around;
use status_bar::text::same_text;
use status_bar::text::trim;

#[test]
fn find_gives_the_first_place() {
    assert_eq!(find("abcabc", "bc"), Some(1));
    assert_eq!(find("abcabc", "abc"), Some(0));
    assert_eq!(find("abcabc", "cab"), Some(2));
    assert_eq!(find("abc", "c"), Some(2));
    assert_eq!(find("abc", "abc"), Some(0));
}

#[test]
fn find_without_a_place() {
    assert_eq!(find("abc", "abcd"), None);
    assert_eq!(find("abc", "ac"), None);
    assert_eq!(find("", "a"), None);
}

#[test]
fn find_of_nothing() {
    assert_eq!(find("abc", ""), Some(0));
    assert_eq!(find("", ""), Some(0));
}

#[test]
fn find_counts_characters() {
    assert_eq!(find("ééa", "a"), Some(2));
    assert_eq!(find("🔊 40%", "40"), Some(2));
}

#[test]
fn line_around_a_place() {
    assert_eq!(line_around("ab\ncd\nef", 0), Some("ab"));
    assert_eq!(line_around("ab\ncd\nef", 2), Some("ab"));
    assert_eq!(line_around("ab\ncd\nef", 3), Some("cd"));
    assert_eq!(line_around("ab\ncd\nef", 4), Some("cd"));
    assert_eq!(line_around("ab\ncd\nef", 8), Some("ef"));
    assert_eq!(line_around("ab\n\ncd", 3), Some(""));
    assert_eq!(line_around("", 0), Some(""));
    assert_eq!(line_around("ab\r\ncd", 1), Some("ab\r"));
}

#[test]
fn line_around_a_place_beyond_the_end() {
    assert_eq!(line_around("ab", 3), None);
    assert_eq!(line_around("", 1), None);
    assert_eq!(line_around("éé", 3), None);
    assert_eq!(line_around("éé", 2), Some("éé"));
}

#[test]
fn find_line_gives_the_first_line_with_the_words() {
    assert_eq!(find_line("one\ntwo x\nthree x\n", "x"), Some("two x"));
    assert_eq!(find_line("one\ntwo\n", "one"), Some("one"));
    assert_eq!(find_line("one\ntwo", "wo"), Some("two"));
    assert_eq!(find_line("one\ntwo\n", "four"), None);
    assert_eq!(find_line("on\ne", "one"), None);
}

#[test]
fn same_text_compares_characters() {
    assert!(same_text("Charging", "Charging"));
    assert!(same_text("", ""));
    assert!(!same_text("Charging", "Charging "));
    assert!(!same_text("Charging", "charging"));
    assert!(!same_text("", "a"));
}

#[test]
fn parse_u32_reads_as_std_does() {
    let cases = [
        "0", "7", "007", "40", "+5", "4294967295", "4294967296", "99999999999999999999", "",
        "+", "-", "-0", "-5", "++5", "+-5", "4 ", " 4", "4a", "a", "٤٠", "1_000",
    ];
    for case in cases {
        assert_eq!(parse_u32(case), case.parse::<u32>().ok(), "{case:?}");
    }
    assert_eq!(parse_u32("40"), Some(40));
    assert_eq!(parse_u32("4294967295"), Some(u32::MAX));
    assert_eq!(parse_u32("4294967296"), None);
}

#[test]
fn parse_i32_reads_as_std_does() {
    let cases = [
        "0", "7", "007", "-0", "+0", "-7", "+7", "2147483647", "2147483648", "-2147483648",
        "-2147483649", "99999999999999999999", "-99999999999999999999", "", "+", "-", "--5",
        "-+5", "+-5", "5-", "4 ", " 4", "4a", "a", "٤٠",
    ];
    for case in cases {
        assert_eq!(parse_i32(case), case.parse::<i32>().ok(), "{case:?}");
    }
    assert_eq!(parse_i32("-2147483648"), Some(i32::MIN));
    assert_eq!(parse_i32("2147483647"), Some(i32::MAX));
    assert_eq!(parse_i32("87"), Some(87));
}

#[test]
fn decimal_text_writes_as_std_does() {
    let cases = [0, 1, 9, 10, 11, 99, 100, 101, 12345, i32::MAX, -1, -9, -10, -100, i32::MIN];
    for case in cases {
        assert_eq!(decimal_text(case), case.to_string());
    }
    assert_eq!(decimal_text(-2147483648), "-2147483648");
    assert_eq!(unsigned_text(u32::MAX), "4294967295");
    assert_eq!(unsigned_text(0), "0");
}

#[test]
fn written_numbers_read_back() {
    let cases = [0, 5, 10, 100, 2147483647, -1, -2147483648];
    for case in cases {
        assert_eq!(parse_i32(decimal_text(case).as_str()), Some(case));
    }
}

#[test]
fn parse_u64_reads_as_std_does() {
    let cases = [
        "0", "1000", "+30000", "18446744073709551615", "18446744073709551616",
        "999999999999999999999999999999999999999999", "", "+", "-1", "1.5", "1s", " 1",
    ];
    for case in cases {
        assert_eq!(parse_u64(case), case.parse::<u64>().ok(), "{case:?}");
    }
    assert_eq!(parse_u64("18446744073709551615"), Some(u64::MAX));
    assert_eq!(parse_u64("1000"), Some(1000));
}

#[test]
fn white_space_is_what_std_calls_so() {
    let mut code: u32 = 0;
    while code <= 0x10FFFF {
        if let Some(c) = char::from_u32(code) {
            assert_eq!(is_white_space(c), c.is_whitespace(), "U+{code:04X}");
        }
        code += 1;
    }
}

#[test]
fn trim_cuts_both_ends() {
    assert_eq!(trim("87\n"), "87");
    assert_eq!(trim("  my net \n"), "my net");
    assert_eq!(trim("Charging"), "Charging");
    assert_eq!(trim(""), "");
    assert_eq!(trim(" \t\r\n"), "");
    assert_eq!(trim("\u{a0}x\u{3000}"), "x");
    assert_eq!(trim("a"), "a");
    assert_eq!(trim(" a"), "a");
    assert_eq!(trim("a "), "a");
}

#[test]
fn trim_cuts_as_std_does() {
    let cases = [
        "", " ", "  ", "a", " a ", "\ta b\t", "\n\n", "é ", " é", "\u{2003}wide\u{2003}",
        "\u{200b}zero\u{200b}", "x\u{85}", "\u{1680}y", "in  side", "\r\nhome-wifi\r\n",
    ];
    for case in cases {
        assert_eq!(trim(case), case.trim(), "{case:?}");
    }
}
