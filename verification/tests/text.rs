use slashmem::text::{push_decimal, push_hex_fixed, push_signed_decimal, starts_with, strip_prefix};

#[test]
fn decimal_rendering() {
    for n in [0u64, 7, 10, 42, 1000, u64::MAX] {
        let mut s = String::new();
        push_decimal(&mut s, n);
        assert_eq!(s, n.to_string());
    }
}

#[test]
fn signed_decimal_rendering() {
    for n in [0i64, 1, -1, 123, -4567, i64::MIN, i64::MAX] {
        let mut s = String::from("id=");
        push_signed_decimal(&mut s, n);
        assert_eq!(s, format!("id={n}"));
    }
}

#[test]
fn hex_rendering_is_zero_padded() {
    for n in [0u64, 1, 255, 0xdead_beef, u64::MAX] {
        let mut s = String::new();
        push_hex_fixed(&mut s, n, 16);
        assert_eq!(s, format!("{:016x}", n));
    }
}

#[test]
fn prefix_checks() {
    assert!(starts_with("gitdir: /x", "gitdir: "));
    assert!(!starts_with("gitdi", "gitdir: "));
    assert_eq!(strip_prefix("gitdir: /x", "gitdir: "), Some("/x".to_string()));
    assert_eq!(strip_prefix("nope", "gitdir: "), None);
    assert_eq!(strip_prefix("héllo", "hé"), Some("llo".to_string()));
}
