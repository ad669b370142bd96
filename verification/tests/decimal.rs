use errmodel::text::parse_u64;
use errmodel::text::u32_dec_string;

#[test]
fn renders_decimal_digits() {
    assert_eq!(u32_dec_string(0), "0");
    assert_eq!(u32_dec_string(7), "7");
    assert_eq!(u32_dec_string(76), "76");
    assert_eq!(u32_dec_string(100), "100");
    assert_eq!(u32_dec_string(4294967295), "4294967295");
}

#[test]
fn parses_decimal_text() {
    assert_eq!(parse_u64("0").ok(), Some(0));
    assert_eq!(parse_u64("123").ok(), Some(123));
    assert_eq!(parse_u64("007").ok(), Some(7));
    assert_eq!(parse_u64("18446744073709551615").ok(), Some(u64::MAX));
}

#[test]
fn rejects_text_that_is_not_a_number() {
    for bad in ["", "12a", "a", " 1", "1 ", "-1", "+1", "1.5"] {
        let r = parse_u64(bad);
        assert!(r.is_err(), "accepted {:?}", bad);
        assert_eq!(r.unwrap_err().render(), "invalid number text");
    }
}

#[test]
fn rejects_values_that_overflow() {
    let r = parse_u64("18446744073709551616");
    assert!(r.is_err());
    assert_eq!(r.unwrap_err().render(), "invalid number text");

    let r = parse_u64("99999999999999999999999999");
    assert!(r.is_err());
}

#[test]
fn round_trips_rendered_values() {
    for n in [0u32, 7, 41, 76, 77, 4294967295] {
        assert_eq!(parse_u64(&u32_dec_string(n)).ok(), Some(n as u64));
    }
}
