use buzz_transfer::text::{bounded_text, decimal_text};

#[test]
fn bounds_count_bytes() {
    assert!(bounded_text("abc", 3));
    assert!(!bounded_text("abcd", 3));
    assert!(!bounded_text("", 3));
    assert!(bounded_text("\u{20ac}", 3));
    assert!(!bounded_text("\u{20ac}", 2));
    assert!(bounded_text("\u{1f600}", 4));
    assert!(!bounded_text("\u{1f600}", 3));
}

#[test]
fn control_characters_of_both_ranges_are_refused() {
    for code in 0u32..=0x2ff {
        let c = char::from_u32(code).unwrap();
        let control = code <= 0x1f || (0x7f..=0x9f).contains(&code);
        assert_eq!(bounded_text(&c.to_string(), 8), !control);
    }
}

#[test]
fn decimal_notation_has_no_leading_zeros() {
    assert_eq!(decimal_text(0), "0");
    assert_eq!(decimal_text(9), "9");
    assert_eq!(decimal_text(10), "10");
    assert_eq!(decimal_text(1_234_567_890), "1234567890");
    assert_eq!(decimal_text(u64::MAX), "18446744073709551615");
}
