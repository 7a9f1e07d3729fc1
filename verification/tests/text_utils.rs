use icalbot::text::{
    chars_of, find_chars, hex_string, i64_to_decimal, string_of, strip_prefix_chars,
    trim_chars, trim_end_char_chars, u64_to_decimal,
};

#[test]
fn decimal_rendering_of_unsigned_values() {
    assert_eq!(u64_to_decimal(0), "0");
    assert_eq!(u64_to_decimal(7), "7");
    assert_eq!(u64_to_decimal(1234567890123), "1234567890123");
    assert_eq!(u64_to_decimal(u64::MAX), u64::MAX.to_string());
}

#[test]
fn decimal_rendering_of_signed_values() {
    assert_eq!(i64_to_decimal(0), "0");
    assert_eq!(i64_to_decimal(-42), "-42");
    assert_eq!(i64_to_decimal(i64::MIN), i64::MIN.to_string());
    assert_eq!(i64_to_decimal(i64::MAX), i64::MAX.to_string());
}

#[test]
fn hex_encoding_uses_two_lower_case_digits_per_byte() {
    assert_eq!(hex_string(&[]), "");
    assert_eq!(hex_string(&[0x00, 0x0f, 0xab, 0xff]), "000fabff");
    let bytes: Vec<u8> = (0..=255).collect();
    let expected: String = bytes.iter().map(|b| format!("{:02x}", b)).collect();
    assert_eq!(hex_string(&bytes), expected);
}

#[test]
fn trimming_matches_str_trim() {
    for s in ["  hello \t", "\u{3000}x\u{a0}", "", "   ", "a b", "\u{85}\u{2028}z\u{200a}", "\u{200b}x"] {
        let cs = chars_of(s);
        assert_eq!(string_of(&trim_chars(&cs)), s.trim());
    }
}

#[test]
fn trimming_trailing_slashes() {
    let cs = chars_of("http://x/y///");
    assert_eq!(string_of(&trim_end_char_chars(&cs, '/')), "http://x/y");
    let cs = chars_of("///");
    assert_eq!(string_of(&trim_end_char_chars(&cs, '/')), "");
}

#[test]
fn prefix_stripping_matches_strip_prefix() {
    let cs = chars_of("!icalbot help");
    let rest = strip_prefix_chars(&cs, "!icalbot").unwrap();
    assert_eq!(string_of(&rest), " help");
    assert!(strip_prefix_chars(&chars_of("!ical"), "!icalbot").is_none());
    assert!(strip_prefix_chars(&chars_of("?icalbot"), "!icalbot").is_none());
}

#[test]
fn finding_the_first_occurrence() {
    let s = chars_of("https://a://b");
    assert_eq!(find_chars(&s, &chars_of("://")), Some(5));
    assert_eq!(find_chars(&s, &chars_of("/")), Some(6));
    assert_eq!(find_chars(&s, &chars_of("zz")), None);
    assert_eq!(find_chars(&s, &chars_of("")), Some(0));
}
