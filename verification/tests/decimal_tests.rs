use protin::decimal::{decimal_string, parse_i32, parse_u16, push_decimal};

const SAMPLES: &[&str] = &[
    "", "+", "-", "0", "-0", "+0", "00012", "7", "-7", "+7", "12a", "a12", " 12", "12 ", "1_000",
    "+-1", "-+1", "--1", "++1", "2147483647", "2147483648", "-2147483648", "-2147483649",
    "65535", "65536", "+65535", "-65535", "99999999999999999999", "٣", "１２", "1.5", "0x10",
];

#[test]
fn parse_i32_agrees_with_std() {
    for s in SAMPLES {
        assert_eq!(parse_i32(s), s.parse::<i32>().ok(), "input {:?}", s);
    }
}

#[test]
fn parse_u16_agrees_with_std() {
    for s in SAMPLES {
        assert_eq!(parse_u16(s), s.parse::<u16>().ok(), "input {:?}", s);
    }
}

#[test]
fn parse_exact_values() {
    assert_eq!(parse_i32("-2147483648"), Some(i32::MIN));
    assert_eq!(parse_i32("2147483647"), Some(i32::MAX));
    assert_eq!(parse_i32("2147483648"), None);
    assert_eq!(parse_u16("+80"), Some(80));
    assert_eq!(parse_u16("-0"), None);
    assert_eq!(parse_u16(""), None);
}

#[test]
fn decimal_string_agrees_with_to_string() {
    for n in [0usize, 1, 9, 10, 11, 99, 100, 8080, 65535, 1234567890, usize::MAX] {
        assert_eq!(decimal_string(n), n.to_string());
    }
}

#[test]
fn push_decimal_appends() {
    let mut s = String::from("n=");
    push_decimal(&mut s, 407);
    assert_eq!(s, "n=407");
}

#[test]
fn decimal_round_trip_through_parse() {
    for n in [0usize, 1, 42, 8080, 65535] {
        assert_eq!(parse_u16(&decimal_string(n)), Some(n as u16));
        assert_eq!(parse_i32(&decimal_string(n)), Some(n as i32));
    }
    assert_eq!(parse_u16(&decimal_string(65536)), None);
}
