use quotax::text::{
    concat2, concat3, parse_i64, parse_u64, prefix_chars, str_eq, trim, trim_end_char,
    u64_to_decimal,
};

#[test]
fn decimal_rendering_matches_to_string() {
    for n in [0u64, 7, 10, 99, 100, 1800, 10080, u64::MAX] {
        assert_eq!(u64_to_decimal(n), n.to_string());
    }
}

#[test]
fn parsing_matches_std() {
    for s in ["", "+", "-", "0", "+12", "-12", "12a", " 1", "18446744073709551615",
        "18446744073709551616", "9223372036854775807", "9223372036854775808",
        "-9223372036854775808", "-9223372036854775809", "007", "٣"] {
        assert_eq!(parse_u64(s), s.parse::<u64>().ok(), "u64 {:?}", s);
        assert_eq!(parse_i64(s), s.parse::<i64>().ok(), "i64 {:?}", s);
    }
}

#[test]
fn trimming_matches_std() {
    for s in ["", "  ", " a ", "\u{3000}x\u{2029}", "\t\nab c\r", "\u{85}\u{a0}z"] {
        assert_eq!(trim(s), s.trim(), "{:?}", s);
    }
    for s in ["a//", "/", "", "a/b/", "ab"] {
        assert_eq!(trim_end_char(s, '/'), s.trim_end_matches('/'));
    }
}

#[test]
fn prefixes_and_concatenation() {
    assert_eq!(prefix_chars("héllo", 2), "hé");
    assert_eq!(prefix_chars("ab", 5), "ab");
    assert_eq!(concat2("a", "b"), "ab");
    assert_eq!(concat3("a", "b", "c"), "abc");
    assert!(str_eq("x", "x"));
    assert!(!str_eq("x", "y"));
}
