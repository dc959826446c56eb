use stm32_console::text::{parse_i32_hex, parse_u8_dec, parse_u8_hex, split_spaces, str_eq, trim_at_nul};

#[test]
fn str_eq_exact_and_case() {
    assert!(str_eq("gpio", "gpio"));
    assert!(!str_eq("gpio", "GPIO"));
    assert!(!str_eq("gpio", "gpi"));
    assert!(!str_eq("gpio", "gpioo"));
    assert!(str_eq("", ""));
    assert!(!str_eq("", "a"));
}

#[test]
fn split_plain() {
    let toks = split_spaces("gpio set A 5");
    assert_eq!(toks, vec!["gpio", "set", "A", "5"]);
}

#[test]
fn split_empty_and_runs() {
    assert_eq!(split_spaces(""), vec![""]);
    assert_eq!(split_spaces("a  b"), vec!["a", "", "b"]);
    assert_eq!(split_spaces(" x "), vec!["", "x", ""]);
}

#[test]
fn trim_cuts_at_first_nul() {
    assert_eq!(trim_at_nul("gpio set A 5\u{0}\u{0}junk"), "gpio set A 5");
    assert_eq!(trim_at_nul("abc"), "abc");
    assert_eq!(trim_at_nul("\u{0}abc"), "");
}

#[test]
fn dec_u8_accepts_plain_numbers() {
    assert_eq!(parse_u8_dec("0"), Some(0));
    assert_eq!(parse_u8_dec("5"), Some(5));
    assert_eq!(parse_u8_dec("15"), Some(15));
    assert_eq!(parse_u8_dec("255"), Some(255));
    assert_eq!(parse_u8_dec("+7"), Some(7));
}

#[test]
fn dec_u8_rejects_junk_and_overflow() {
    assert_eq!(parse_u8_dec(""), None);
    assert_eq!(parse_u8_dec("+"), None);
    assert_eq!(parse_u8_dec("256"), None);
    assert_eq!(parse_u8_dec("999999999999"), None);
    assert_eq!(parse_u8_dec("12a"), None);
    assert_eq!(parse_u8_dec("-1"), None);
    assert_eq!(parse_u8_dec(" 5"), None);
}

#[test]
fn hex_u8_both_cases() {
    assert_eq!(parse_u8_hex("0"), Some(0));
    assert_eq!(parse_u8_hex("3c"), Some(0x3c));
    assert_eq!(parse_u8_hex("FF"), Some(255));
    assert_eq!(parse_u8_hex("ff"), Some(255));
    assert_eq!(parse_u8_hex("0a"), Some(10));
}

#[test]
fn hex_u8_rejects_junk_and_overflow() {
    assert_eq!(parse_u8_hex(""), None);
    assert_eq!(parse_u8_hex("100"), None);
    assert_eq!(parse_u8_hex("g"), None);
    assert_eq!(parse_u8_hex("0x3c"), None);
}

#[test]
fn hex_i32_signs_and_range() {
    assert_eq!(parse_i32_hex("20000000"), Some(0x2000_0000));
    assert_eq!(parse_i32_hex("7fffffff"), Some(i32::MAX));
    assert_eq!(parse_i32_hex("80000000"), None);
    assert_eq!(parse_i32_hex("-1"), Some(-1));
    assert_eq!(parse_i32_hex("-80000000"), Some(i32::MIN));
    assert_eq!(parse_i32_hex("-80000001"), None);
    assert_eq!(parse_i32_hex("+10"), Some(16));
    assert_eq!(parse_i32_hex(""), None);
    assert_eq!(parse_i32_hex("-"), None);
    assert_eq!(parse_i32_hex("zz"), None);
}
