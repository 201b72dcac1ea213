use txview::numeric::{decimal_text, digit_of, parse_u64, upper_hex_text};
use txview::text::{chars_of, same_text, strip_prefix, strip_quotes};

#[test]
fn parses_hexadecimal() {
    assert_eq!(parse_u64("10", 16), Some(16));
    assert_eq!(parse_u64("ff", 16), Some(255));
    assert_eq!(parse_u64("FF", 16), Some(255));
    assert_eq!(parse_u64("0", 16), Some(0));
    assert_eq!(parse_u64("0000a", 16), Some(10));
    assert_eq!(parse_u64("3b9aca00", 16), Some(1_000_000_000));
}

#[test]
fn parses_decimal() {
    assert_eq!(parse_u64("21000", 10), Some(21000));
    assert_eq!(parse_u64("007", 10), Some(7));
    assert_eq!(parse_u64("18446744073709551615", 10), Some(u64::MAX));
}

#[test]
fn refuses_what_is_no_numeral() {
    assert_eq!(parse_u64("", 16), None);
    assert_eq!(parse_u64("ZZ", 16), None);
    assert_eq!(parse_u64("1g", 16), None);
    assert_eq!(parse_u64("0x10", 16), None);
    assert_eq!(parse_u64("a", 10), None);
    assert_eq!(parse_u64(" 1", 10), None);
    assert_eq!(parse_u64("1 ", 10), None);
    assert_eq!(parse_u64("1_000", 10), None);
    assert_eq!(parse_u64("-1", 10), None);
    assert_eq!(parse_u64("1.5", 10), None);
    assert_eq!(parse_u64("\u{663}", 10), None);
}

#[test]
fn accepts_one_leading_plus() {
    assert_eq!(parse_u64("+1f", 16), Some(31));
    assert_eq!(parse_u64("+0", 10), Some(0));
    assert_eq!(parse_u64("+", 10), None);
    assert_eq!(parse_u64("++1", 10), None);
    assert_eq!(parse_u64("1+", 10), None);
}

#[test]
fn refuses_values_above_u64() {
    assert_eq!(parse_u64("ffffffffffffffff", 16), Some(u64::MAX));
    assert_eq!(parse_u64("10000000000000000", 16), None);
    assert_eq!(parse_u64("18446744073709551616", 10), None);
    assert_eq!(parse_u64("99999999999999999999999999", 10), None);
    assert_eq!(parse_u64("ffffffffffffffffZ", 16), None);
}

#[test]
fn parses_as_std_does() {
    let samples = [
        "", "+", "-", "0", "00", "+7", "-7", "7f", "7F", "zz", "12345678901234567890",
        "18446744073709551615", "18446744073709551616", "ffffffffffffffff", "1 2", "0x1",
    ];
    for s in samples {
        assert_eq!(parse_u64(s, 10), u64::from_str_radix(s, 10).ok(), "base 10: {:?}", s);
        assert_eq!(parse_u64(s, 16), u64::from_str_radix(s, 16).ok(), "base 16: {:?}", s);
        assert_eq!(parse_u64(s, 36), u64::from_str_radix(s, 36).ok(), "base 36: {:?}", s);
        assert_eq!(parse_u64(s, 2), u64::from_str_radix(s, 2).ok(), "base 2: {:?}", s);
    }
}

#[test]
fn every_radix_is_accepted() {
    assert_eq!(parse_u64("0", 0), None);
    assert_eq!(parse_u64("0", 1), Some(0));
    assert_eq!(parse_u64("000", 1), Some(0));
    assert_eq!(parse_u64("1", 1), None);
    assert_eq!(parse_u64("z", 36), Some(35));
    assert_eq!(parse_u64("z", 100), Some(35));
    assert_eq!(parse_u64("10", 100), Some(100));
    assert_eq!(parse_u64("!", u64::MAX), None);
}

#[test]
fn digit_values() {
    assert_eq!(digit_of('0'), 0);
    assert_eq!(digit_of('9'), 9);
    assert_eq!(digit_of('a'), 10);
    assert_eq!(digit_of('F'), 15);
    assert_eq!(digit_of('z'), 35);
    assert_eq!(digit_of('Z'), 35);
    assert_eq!(digit_of(' '), 36);
    assert_eq!(digit_of('/'), 36);
    assert_eq!(digit_of(':'), 36);
    assert_eq!(digit_of('é'), 36);
}

#[test]
fn writes_decimal() {
    assert_eq!(decimal_text(0), "0");
    assert_eq!(decimal_text(16), "16");
    assert_eq!(decimal_text(21000), "21000");
    assert_eq!(decimal_text(u64::MAX), "18446744073709551615");
}

#[test]
fn writes_upper_case_hexadecimal() {
    assert_eq!(upper_hex_text(0), "0");
    assert_eq!(upper_hex_text(21000), "5208");
    assert_eq!(upper_hex_text(255), "FF");
    assert_eq!(upper_hex_text(1_000_000_000), "3B9ACA00");
    assert_eq!(upper_hex_text(u64::MAX), "FFFFFFFFFFFFFFFF");
}

#[test]
fn written_numerals_are_read_back() {
    for n in [0u64, 1, 9, 10, 15, 16, 255, 256, 4096, 21000, u64::MAX - 1, u64::MAX] {
        assert_eq!(parse_u64(&decimal_text(n), 10), Some(n));
        assert_eq!(parse_u64(&upper_hex_text(n), 16), Some(n));
        assert_eq!(decimal_text(n), format!("{}", n));
        assert_eq!(upper_hex_text(n), format!("{:X}", n));
    }
}

#[test]
fn strips_double_quotes() {
    assert_eq!(strip_quotes("\"0xabc\""), "0xabc");
    assert_eq!(strip_quotes("0x\"a\"bc"), "0xabc");
    assert_eq!(strip_quotes("0xabc"), "0xabc");
    assert_eq!(strip_quotes("\"\"\""), "");
    assert_eq!(strip_quotes(""), "");
    assert_eq!(strip_quotes("'é'"), "'é'");
}

#[test]
fn takes_a_prefix_off() {
    assert_eq!(strip_prefix("0x10", "0x"), Some(String::from("10")));
    assert_eq!(strip_prefix("0x", "0x"), Some(String::new()));
    assert_eq!(strip_prefix("0x0x1", "0x"), Some(String::from("0x1")));
    assert_eq!(strip_prefix("abc", ""), Some(String::from("abc")));
    assert_eq!(strip_prefix("", ""), Some(String::new()));
    assert_eq!(strip_prefix("éa1", "éa"), Some(String::from("1")));
}

#[test]
fn keeps_what_has_no_such_prefix() {
    assert_eq!(strip_prefix("0", "0x"), None);
    assert_eq!(strip_prefix("", "0x"), None);
    assert_eq!(strip_prefix("0X10", "0x"), None);
    assert_eq!(strip_prefix("10", "0x"), None);
    assert_eq!(strip_prefix(" 0x10", "0x"), None);
    assert_eq!(strip_prefix("x0", "0x"), None);
    assert_eq!(strip_prefix("0y", "0x"), None);
}

#[test]
fn takes_a_prefix_off_as_std_does() {
    for s in ["", "0", "0x", "0x1", "x0x", "00x", "0xx", "é0x"] {
        for p in ["", "0", "0x", "x", "é", "0x1"] {
            assert_eq!(strip_prefix(s, p), s.strip_prefix(p).map(String::from), "{:?} {:?}", s, p);
        }
    }
}

#[test]
fn characters_of_a_string() {
    assert_eq!(chars_of("0x1é"), vec!['0', 'x', '1', 'é']);
    assert_eq!(chars_of(""), Vec::<char>::new());
}

#[test]
fn compares_text() {
    assert!(same_text("0x1", "0x1"));
    assert!(!same_text("0x1", "0x0"));
    assert!(!same_text("0x1", "0x10"));
    assert!(same_text("", ""));
}
