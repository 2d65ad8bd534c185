use meilisearch_bridge::text::{parse_u32, split_lines, trim, u128_to_decimal, u32_to_decimal};

#[test]
fn decimal_rendering_has_no_leading_zeros() {
    assert_eq!(u32_to_decimal(0), "0");
    assert_eq!(u32_to_decimal(7), "7");
    assert_eq!(u32_to_decimal(1024), "1024");
    assert_eq!(u32_to_decimal(u32::MAX), "4294967295");
    assert_eq!(u128_to_decimal(1725029869000), "1725029869000");
    assert_eq!(u128_to_decimal(u128::MAX), u128::MAX.to_string());
}

#[test]
fn parse_u32_follows_str_parse() {
    for s in ["0", "42", "+42", "007", "4294967295", "4294967296", "", "+", "-1", "1a", " 1", "99999999999999999999"] {
        assert_eq!(parse_u32(s), s.parse::<u32>().ok(), "input {s:?}");
    }
}

#[test]
fn decimal_roundtrips_through_parse() {
    for n in [0u32, 1, 9, 10, 99, 100, 65535, 4294967295] {
        assert_eq!(parse_u32(&u32_to_decimal(n)), Some(n));
    }
}

#[test]
fn trim_follows_str_trim() {
    for s in ["", "   ", "  a b  ", "\t\n{\"a\":1}\r\n", "\u{3000}x\u{2028}", "\u{a0}\u{85}y\u{200a}", "no-space"] {
        assert_eq!(trim(s), s.trim(), "input {s:?}");
    }
}

#[test]
fn split_lines_follows_str_lines() {
    for s in ["", "a", "a\n", "a\nb", "a\r\nb\r\n", "\n\n", "x\r", "x\ry\n", "\r\n", "one\n\ntwo\n"] {
        let expected: Vec<String> = s.lines().map(|l| l.to_string()).collect();
        assert_eq!(split_lines(s), expected, "input {s:?}");
    }
}
