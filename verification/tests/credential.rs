use oracle_verifier::credential::is_expired;

#[test]
fn zero_expiration_never_expires() {
    assert!(!is_expired(0, 0));
    assert!(!is_expired(0, u64::MAX));
}

#[test]
fn expires_strictly_after_the_timestamp() {
    let expiration: u64 = 365 * 24 * 60 * 60;
    assert!(!is_expired(expiration, 0));
    assert!(!is_expired(expiration, expiration - 1));
    assert!(!is_expired(expiration, expiration));
    assert!(is_expired(expiration, expiration + 1));
    assert!(is_expired(expiration, u64::MAX));
}

#[test]
fn smallest_expiration_edge() {
    assert!(!is_expired(1, 0));
    assert!(!is_expired(1, 1));
    assert!(is_expired(1, 2));
}
