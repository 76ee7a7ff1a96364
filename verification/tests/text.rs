use database::text::{push_decimal, push_signed_decimal, str_eq};

fn decimal(n: u64) -> String {
    let mut out = String::new();
    push_decimal(&mut out, n);
    out
}

fn signed(n: i64) -> String {
    let mut out = String::new();
    push_signed_decimal(&mut out, n);
    out
}

#[test]
fn decimal_has_no_leading_zeros() {
    assert_eq!(decimal(0), "0");
    assert_eq!(decimal(7), "7");
    assert_eq!(decimal(10), "10");
    assert_eq!(decimal(100), "100");
    assert_eq!(decimal(1234567890), "1234567890");
    assert_eq!(decimal(u64::MAX), "18446744073709551615");
}

#[test]
fn decimal_agrees_with_the_standard_library() {
    let mut n: u64 = 1;
    for _ in 0..64 {
        assert_eq!(decimal(n), n.to_string());
        assert_eq!(decimal(n - 1), (n - 1).to_string());
        n = n.wrapping_mul(2);
    }
}

#[test]
fn signed_decimal_writes_the_sign_first() {
    assert_eq!(signed(0), "0");
    assert_eq!(signed(-1), "-1");
    assert_eq!(signed(1), "1");
    assert_eq!(signed(-10), "-10");
    assert_eq!(signed(i64::MAX), "9223372036854775807");
    assert_eq!(signed(i64::MIN), "-9223372036854775808");
    assert_eq!(signed(i64::MIN + 1), "-9223372036854775807");
}

#[test]
fn pushing_appends() {
    let mut out = String::from("n=");
    push_decimal(&mut out, 42);
    out.push(',');
    push_signed_decimal(&mut out, -42);
    assert_eq!(out, "n=42,-42");
}

#[test]
fn strings_are_compared_by_their_characters() {
    assert!(str_eq("", ""));
    assert!(str_eq("json", "json"));
    assert!(!str_eq("json", "JSON"));
    assert!(!str_eq("json", "jso"));
    assert!(!str_eq("jso", "json"));
    assert!(str_eq("日本", "日本"));
    assert!(!str_eq("日本", "日木"));
}
