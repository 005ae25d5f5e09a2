use seatd::text::{parse_u32, push_decimal, starts_with, str_equal};

fn decimal_string(n: u32) -> String {
    let mut s = String::new();
    push_decimal(&mut s, n);
    s
}

#[test]
fn decimal_renders_like_display() {
    for n in [0u32, 7, 10, 99, 100, 9999, 123456789, u32::MAX] {
        assert_eq!(decimal_string(n), n.to_string());
    }
}

#[test]
fn parse_u32_follows_str_parse() {
    for s in [
        "0", "9", "+9", "0009", "4294967295", "4294967296", "", "+", "-", "-0", "1a", " 1", "1 ",
        "++1", "99999999999999999999",
    ] {
        assert_eq!(parse_u32(s), s.parse::<u32>().ok(), "input {s:?}");
    }
}

#[test]
fn decimal_round_trips_through_parse() {
    for n in [0u32, 1, 42, 65536, u32::MAX] {
        assert_eq!(parse_u32(&decimal_string(n)), Some(n));
    }
}

#[test]
fn prefixes_and_equality() {
    assert!(starts_with("/dev/tty1", "/dev/tty"));
    assert!(starts_with("abc", ""));
    assert!(!starts_with("/dev", "/dev/tty"));
    assert!(!starts_with("/dev/ttz", "/dev/tty"));
    assert!(str_equal("ping", "ping"));
    assert!(!str_equal("ping", "pin"));
    assert!(!str_equal("ping", "pong"));
}
