//! The password hashing round trip, exercised against the real argon2
//! implementation.
use saucepan::user::User;

fn fresh(password: &str) -> User {
    User::new(
        "carol".to_string(),
        Some(password.to_string()),
        vec![],
        None,
    )
}

#[test]
fn verify_accepts_the_hashed_plaintext() {
    let mut u = fresh("correct horse battery staple");
    assert!(u.hash_password());
    assert!(u.check_password("correct horse battery staple"));
}

#[test]
fn verify_rejects_other_plaintexts() {
    let mut u = fresh("correct horse battery staple");
    assert!(u.hash_password());
    assert!(!u.check_password("incorrect horse battery staple"));
    assert!(!u.check_password(""));
}

#[test]
fn hashing_twice_gives_different_strings() {
    let mut a = fresh("same password");
    let mut b = fresh("same password");
    assert!(a.hash_password());
    assert!(b.hash_password());
    let ha = a.hashed_password().clone().expect("hash stored");
    let hb = b.hashed_password().clone().expect("hash stored");
    // Fresh random salts: the PHC strings differ even for equal plaintexts.
    assert_ne!(ha, hb);
    // Both still verify the shared plaintext.
    assert!(a.check_password("same password"));
    assert!(b.check_password("same password"));
}

#[test]
fn migration_discards_the_plaintext_and_is_one_time() {
    let mut u = fresh("pw");
    assert!(u.hash_password());
    let first = u.hashed_password().clone().expect("hash stored");
    // A second call finds no plaintext and changes nothing.
    assert!(!u.hash_password());
    assert_eq!(u.hashed_password().clone().expect("hash kept"), first);
}

#[test]
fn record_without_hash_rejects_everything() {
    let u = User::new("dave".to_string(), Some("pw".to_string()), vec![], None);
    assert!(!u.check_password("pw"));
}

#[test]
fn malformed_stored_hash_rejects_without_panicking() {
    let u = User::new(
        "erin".to_string(),
        None,
        vec![],
        Some("not a phc string".to_string()),
    );
    assert!(!u.check_password("anything"));
}
