use komorebi_switcher::text::{
    char_is_digit, char_is_whitespace, decimal_string, eq_ignore_ascii_case, i32_string,
    leading_i32, parse_i32, str_eq, str_lt, trim, whole_i32,
};

#[test]
fn whitespace_is_unicode_white_space() {
    let mut code: u32 = 0;
    while code <= 0x10FFFF {
        if let Some(c) = char::from_u32(code) {
            assert_eq!(char_is_whitespace(c), c.is_whitespace(), "U+{:04X}", code);
        }
        code += 1;
    }
}

#[test]
fn digits_are_ascii_digits() {
    let mut code: u32 = 0;
    while code <= 0x2FFF {
        if let Some(c) = char::from_u32(code) {
            assert_eq!(char_is_digit(c), c.is_ascii_digit());
        }
        code += 1;
    }
}

#[test]
fn trim_removes_white_space_at_both_ends() {
    assert_eq!(trim("  a b \t\r\n"), "a b");
    assert_eq!(trim(""), "");
    assert_eq!(trim(" \u{3000}\u{85} "), "");
    assert_eq!(trim("x"), "x");
    assert_eq!(trim("\u{a0}é ü\u{2003}"), "é ü");
}

#[test]
fn trim_agrees_with_std() {
    let samples = ["", " ", "a", " a", "a ", "  a  b  ", "\t\n x \r\n", "\u{1680}q\u{205f}", "äö "];
    for s in samples {
        assert_eq!(trim(s), s.trim());
    }
}

#[test]
fn parse_i32_reads_signed_decimals() {
    assert_eq!(parse_i32("0"), Some(0));
    assert_eq!(parse_i32("7"), Some(7));
    assert_eq!(parse_i32("-7"), Some(-7));
    assert_eq!(parse_i32("+7"), Some(7));
    assert_eq!(parse_i32("007"), Some(7));
    assert_eq!(parse_i32("-0"), Some(0));
    assert_eq!(parse_i32("2147483647"), Some(i32::MAX));
    assert_eq!(parse_i32("-2147483648"), Some(i32::MIN));
}

#[test]
fn parse_i32_rejects_what_is_no_number() {
    assert_eq!(parse_i32(""), None);
    assert_eq!(parse_i32("-"), None);
    assert_eq!(parse_i32("+"), None);
    assert_eq!(parse_i32(" 1"), None);
    assert_eq!(parse_i32("1 "), None);
    assert_eq!(parse_i32("1a"), None);
    assert_eq!(parse_i32("--1"), None);
    assert_eq!(parse_i32("2147483648"), None);
    assert_eq!(parse_i32("-2147483649"), None);
    assert_eq!(parse_i32("99999999999999999999999999"), None);
    assert_eq!(parse_i32("١٢"), None);
}

#[test]
fn parse_i32_agrees_with_std() {
    let samples = [
        "", "0", "-0", "+0", "12", "-12", "+12", "0012", "1_2", "1.0", "1e3", " 12", "12 ", "-",
        "+", "+-1", "2147483647", "2147483648", "-2147483648", "-2147483649", "abc", "0x10",
    ];
    for s in samples {
        assert_eq!(parse_i32(s), s.parse::<i32>().ok(), "{:?}", s);
    }
}

#[test]
fn i32_string_writes_decimals() {
    assert_eq!(i32_string(0), "0");
    assert_eq!(i32_string(5), "5");
    assert_eq!(i32_string(-5), "-5");
    assert_eq!(i32_string(200), "200");
    assert_eq!(i32_string(i32::MAX), "2147483647");
    assert_eq!(i32_string(i32::MIN), "-2147483648");
}

#[test]
fn i32_string_then_parse_i32_is_the_number() {
    let samples = [0, 1, -1, 9, 10, -10, 99, 100, 12345, -98765, i32::MAX, i32::MIN];
    for v in samples {
        assert_eq!(i32_string(v), v.to_string());
        assert_eq!(parse_i32(&i32_string(v)), Some(v));
    }
}

#[test]
fn decimal_string_writes_unsigned_decimals() {
    assert_eq!(decimal_string(0), "0");
    assert_eq!(decimal_string(9), "9");
    assert_eq!(decimal_string(10), "10");
    assert_eq!(decimal_string(18446744073709551616), "18446744073709551616");
    assert_eq!(decimal_string(u128::MAX), u128::MAX.to_string());
}

#[test]
fn leading_i32_reads_the_digits_a_name_starts_with() {
    assert_eq!(leading_i32("1"), Some(1));
    assert_eq!(leading_i32("02"), Some(2));
    assert_eq!(leading_i32(" 7: web "), Some(7));
    assert_eq!(leading_i32("12abc"), Some(12));
    assert_eq!(leading_i32("web"), None);
    assert_eq!(leading_i32(""), None);
    assert_eq!(leading_i32("   "), None);
    assert_eq!(leading_i32("-3"), None);
    assert_eq!(leading_i32("99999999999"), None);
}

#[test]
fn whole_i32_reads_a_name_that_is_a_number() {
    assert_eq!(whole_i32(" 3 "), Some(3));
    assert_eq!(whole_i32("-3"), Some(-3));
    assert_eq!(whole_i32("3a"), None);
    assert_eq!(whole_i32(""), None);
}

#[test]
fn eq_ignore_ascii_case_folds_ascii_letters_only() {
    assert!(eq_ignore_ascii_case("Workspace", "workspace"));
    assert!(eq_ignore_ascii_case("WINDOW", "window"));
    assert!(eq_ignore_ascii_case("", ""));
    assert!(!eq_ignore_ascii_case("", "workspace"));
    assert!(!eq_ignore_ascii_case("workspaces", "workspace"));
    assert!(!eq_ignore_ascii_case("Ä", "ä"));
    assert!(!eq_ignore_ascii_case("[", "{"));
    assert!(!eq_ignore_ascii_case("@", "`"));
}

#[test]
fn eq_ignore_ascii_case_agrees_with_std() {
    let samples = ["", "a", "A", "z", "Z", "[", "{", "@", "`", "aB", "Ab", "é", "É", "ab", "abc"];
    for a in samples {
        for b in samples {
            assert_eq!(eq_ignore_ascii_case(a, b), a.eq_ignore_ascii_case(b), "{:?} {:?}", a, b);
        }
    }
}

#[test]
fn str_lt_and_str_eq_agree_with_std() {
    let samples = ["", "a", "b", "ab", "abc", "b1", "B", "é", "z", "\u{10000}", "\u{ffff}", "10", "9"];
    for a in samples {
        for b in samples {
            assert_eq!(str_lt(a, b), a < b, "{:?} {:?}", a, b);
            assert_eq!(str_eq(a, b), a == b, "{:?} {:?}", a, b);
        }
    }
}
