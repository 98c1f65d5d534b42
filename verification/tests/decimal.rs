use nanorpc::decimal::push_decimal;

fn rendered(n: u64) -> String {
    let mut out = String::new();
    push_decimal(&mut out, n);
    out
}

#[test]
fn numerals_have_no_sign_and_no_leading_zero() {
    assert_eq!(rendered(0), "0");
    assert_eq!(rendered(7), "7");
    assert_eq!(rendered(9), "9");
    assert_eq!(rendered(10), "10");
    assert_eq!(rendered(99), "99");
    assert_eq!(rendered(100), "100");
    assert_eq!(rendered(1234567890), "1234567890");
    assert_eq!(rendered(u64::MAX), "18446744073709551615");
}

#[test]
fn numerals_are_appended_to_what_is_there() {
    let mut out = "req-".to_string();
    push_decimal(&mut out, 42);
    assert_eq!(out, "req-42");
    push_decimal(&mut out, 0);
    assert_eq!(out, "req-420");
}

#[test]
fn numerals_agree_with_the_standard_rendering() {
    let mut n: u64 = 1;
    for _ in 0..64 {
        assert_eq!(rendered(n), n.to_string());
        assert_eq!(rendered(n - 1), (n - 1).to_string());
        n = n.wrapping_mul(2);
    }
}
