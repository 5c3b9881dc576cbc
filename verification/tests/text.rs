use mvx_observer::text::{parse_u128, push_decimal, same_text, starts_with};

#[test]
fn prefix_checks() {
    assert!(starts_with("delegate@01", "delegate"));
    assert!(starts_with("abc", ""));
    assert!(starts_with("abc", "abc"));
    assert!(!starts_with("ab", "abc"));
    assert!(!starts_with("xabc", "abc"));
    assert!(starts_with("été", "ét"));
}

#[test]
fn text_equality() {
    assert!(same_text("normal", "normal"));
    assert!(!same_text("normal", "normals"));
    assert!(!same_text("Normal", "normal"));
    assert!(same_text("", ""));
}

#[test]
fn decimal_rendering() {
    let mut s = String::from("n=");
    push_decimal(&mut s, 0);
    assert_eq!(s, "n=0");
    let mut s = String::new();
    push_decimal(&mut s, 1_234_567_890);
    assert_eq!(s, "1234567890");
    let mut s = String::new();
    push_decimal(&mut s, u64::MAX);
    assert_eq!(s, "18446744073709551615");
}

#[test]
fn decimal_rendering_reads_back() {
    for n in [0u64, 9, 10, 99, 100, 65_535, u64::MAX] {
        let mut s = String::new();
        push_decimal(&mut s, n);
        assert_eq!(parse_u128(&s), Some(n as u128));
    }
}

#[test]
fn u128_parse_agrees_with_std() {
    for s in ["", "+", "-", "-0", "0", "+0", "00", "12a", "٣", "1 ", "99999999999999999999999999999999999999999"] {
        assert_eq!(parse_u128(s), s.parse::<u128>().ok(), "input {:?}", s);
    }
}
