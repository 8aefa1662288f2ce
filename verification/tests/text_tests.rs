use remote_commander::text::{chars_of, parse_i64_str, parse_u16_str, split_str, trim_str, u64_to_decimal};

#[test]
fn decimal_of_zero_and_large_numbers() {
    assert_eq!(u64_to_decimal(0), "0");
    assert_eq!(u64_to_decimal(7), "7");
    assert_eq!(u64_to_decimal(10), "10");
    assert_eq!(u64_to_decimal(1024), "1024");
    assert_eq!(u64_to_decimal(u64::MAX), "18446744073709551615");
}

#[test]
fn trim_removes_unicode_whitespace() {
    assert_eq!(trim_str("  chrome.exe \t\n"), "chrome.exe");
    assert_eq!(trim_str("\u{a0}\u{3000}x y\u{2028}"), "x y");
    assert_eq!(trim_str("   "), "");
    assert_eq!(trim_str(""), "");
    assert_eq!(trim_str("a"), "a");
}

#[test]
fn parse_u16_follows_std() {
    for s in ["0", "50", "+7", "007", "65535", "65536", "", "+", "-", "-0", "1 ", " 1", "12a", "99999999999999999999"] {
        assert_eq!(parse_u16_str(s), s.parse::<u16>().ok(), "input {:?}", s);
    }
}

#[test]
fn parse_i64_follows_std() {
    for s in [
        "0",
        "-0",
        "+15",
        "-15",
        "123456789",
        "9223372036854775807",
        "9223372036854775808",
        "-9223372036854775808",
        "-9223372036854775809",
        "",
        "-",
        "+",
        "1,2",
        "--1",
        "٣",
    ] {
        assert_eq!(parse_i64_str(s), s.parse::<i64>().ok(), "input {:?}", s);
    }
}

#[test]
fn split_gives_one_more_piece_than_separators() {
    assert_eq!(split_str("", ','), vec![String::new()]);
    assert_eq!(split_str("a", ','), vec!["a".to_string()]);
    assert_eq!(split_str("a,,b,", ','), vec!["a", "", "b", ""]);
    for s in ["1,2,3", ",", "x", ",,a,b,,"] {
        let expected: Vec<String> = s.split(',').map(|p| p.to_string()).collect();
        assert_eq!(split_str(s, ','), expected);
    }
}

#[test]
fn chars_of_keeps_every_character() {
    assert_eq!(chars_of("Привет, мир"), "Привет, мир".chars().collect::<Vec<_>>());
    assert_eq!(chars_of(""), Vec::<char>::new());
}
