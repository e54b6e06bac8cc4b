use oc_quota::text::{
    contains, decimal, is_white_space, parse_u16, same_text, starts_with, strip_repeated_prefix, trim,
};

#[test]
fn decimal_renders_without_leading_zeros() {
    assert_eq!(decimal(0), "0");
    assert_eq!(decimal(7), "7");
    assert_eq!(decimal(10), "10");
    assert_eq!(decimal(65535), "65535");
    assert_eq!(decimal(1234567890123), "1234567890123");
    assert_eq!(decimal(u64::MAX), u64::MAX.to_string());
}

#[test]
fn parse_u16_accepts_what_from_str_accepts() {
    assert_eq!(parse_u16("42"), Some(42));
    assert_eq!(parse_u16("+7"), Some(7));
    assert_eq!(parse_u16("00012"), Some(12));
    assert_eq!(parse_u16("65535"), Some(65535));
    assert_eq!(parse_u16("0"), Some(0));
}

#[test]
fn parse_u16_rejects_what_from_str_rejects() {
    assert_eq!(parse_u16(""), None);
    assert_eq!(parse_u16("+"), None);
    assert_eq!(parse_u16("-1"), None);
    assert_eq!(parse_u16("-"), None);
    assert_eq!(parse_u16("65536"), None);
    assert_eq!(parse_u16("99999999999"), None);
    assert_eq!(parse_u16("1a"), None);
    assert_eq!(parse_u16(" 1"), None);
    assert_eq!(parse_u16("++1"), None);
    assert_eq!(parse_u16("\u{0663}"), None);
}

#[test]
fn parse_u16_agrees_with_std_on_samples() {
    let samples = [
        "", "+", "-", "0", "+0", "-0", "1", "12", "007", "65534", "65535", "65536", "70000",
        "+65535", "+65536", "abc", "12x", "x12", "1 2", "\u{0661}", "tor-5", "5",
    ];
    for s in samples.iter() {
        assert_eq!(parse_u16(s), s.parse::<u16>().ok(), "sample {:?}", s);
    }
}

#[test]
fn prefix_and_substring_tests() {
    assert!(starts_with("tor-5", "tor-"));
    assert!(!starts_with("to", "tor-"));
    assert!(starts_with("abc", ""));
    assert!(contains("/v1/chat/completions", "/completions"));
    assert!(!contains("/v1/models", "/completions"));
    assert!(contains("abc", ""));
    assert!(!contains("", "a"));
    assert!(contains("xxOK", "OK"));
    assert!(same_text("host", "host"));
    assert!(!same_text("host", "hosts"));
}

#[test]
fn strip_repeated_prefix_removes_every_leading_copy() {
    assert_eq!(strip_repeated_prefix("tor-5", "tor-"), "5");
    assert_eq!(strip_repeated_prefix("tor-tor-5", "tor-"), "5");
    assert_eq!(strip_repeated_prefix("x-tor-5", "tor-"), "x-tor-5");
    assert_eq!(strip_repeated_prefix("tor-", "tor-"), "");
    assert_eq!(strip_repeated_prefix("abc", ""), "abc");
    for s in ["tor-tor-tor-9", "tor-", "tortor-", "tor-x-tor-"].iter() {
        assert_eq!(strip_repeated_prefix(s, "tor-"), s.trim_start_matches("tor-"));
    }
}

#[test]
fn trim_agrees_with_std() {
    let samples = [
        "", " ", "  1.2.3.4\n", "\t\r\nx y\u{0B}\u{0C}", "\u{A0}a\u{3000}", "\u{85}\u{2028}b\u{2029}",
        "\u{1C}x\u{1F}", "\u{200B}z\u{200B}", "\u{2000}\u{200A}\u{202F}\u{205F}\u{1680}",
        "abc", "a b c",
    ];
    for s in samples.iter() {
        assert_eq!(trim(s), s.trim(), "sample {:?}", s);
    }
}

#[test]
fn white_space_agrees_with_std() {
    for code in 0u32..0x3100 {
        if let Some(c) = char::from_u32(code) {
            assert_eq!(is_white_space(c), c.is_whitespace(), "code {:#x}", code);
        }
    }
}
