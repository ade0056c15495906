use escrow_core::checks::{account_owned_by, address_eq, amount_matches, is_rent_exempt};

#[test]
fn address_eq_compares_all_bytes() {
    let a = [1u8; 32];
    let mut b = [1u8; 32];
    assert!(address_eq(&a, &b));
    b[31] = 2;
    assert!(!address_eq(&a, &b));
    let mut c = [1u8; 32];
    c[0] = 0;
    assert!(!address_eq(&a, &c));
}

#[test]
fn account_owned_by_compares_identities() {
    assert!(account_owned_by(&[5u8; 32], &[5u8; 32]));
    assert!(!account_owned_by(&[5u8; 32], &[6u8; 32]));
}

#[test]
fn is_rent_exempt_is_a_threshold() {
    assert!(is_rent_exempt(100, 100));
    assert!(is_rent_exempt(101, 100));
    assert!(!is_rent_exempt(99, 100));
    assert!(is_rent_exempt(0, 0));
}

#[test]
fn amount_matches_is_exact_equality() {
    assert!(amount_matches(100, 100));
    assert!(!amount_matches(100, 50));
    assert!(!amount_matches(0, 1));
    assert!(amount_matches(u64::MAX, u64::MAX));
}
