use apple_intelligence::decimal::{push_decimal, push_signed_decimal};

#[test]
fn unsigned_decimal_text() {
    for n in [0u64, 7, 10, 42, 1000, 18446744073709551615] {
        let mut s = String::from("n=");
        push_decimal(&mut s, n);
        assert_eq!(s, format!("n={}", n));
    }
}

#[test]
fn signed_decimal_text() {
    for n in [0i32, 1, -1, 9, -10, 12345, i32::MAX, i32::MIN] {
        let mut s = String::new();
        push_signed_decimal(&mut s, n);
        assert_eq!(s, format!("{}", n));
    }
}
