use wordford::user::auth::{
    hash_password, hashed_or_fault, matched, AuthError, AuthService, HASH_COST,
};

#[test]
fn hashed_password_verifies() {
    let hash = hash_password("secret").expect("hashing works");
    assert!(AuthService::verify_password("secret", &hash));
}

#[test]
fn another_password_does_not_verify() {
    let hash = hash_password("secret").expect("hashing works");
    assert!(!AuthService::verify_password("Secret", &hash));
    assert!(!AuthService::verify_password("", &hash));
}

#[test]
fn hashing_twice_gives_two_hashes_that_both_verify() {
    let first = hash_password("hunter2").expect("hashing works");
    let second = hash_password("hunter2").expect("hashing works");
    assert_ne!(first, second);
    assert!(AuthService::verify_password("hunter2", &first));
    assert!(AuthService::verify_password("hunter2", &second));
}

#[test]
fn hash_is_a_bcrypt_hash_at_the_fixed_cost() {
    assert_eq!(HASH_COST, 12);
    let hash = hash_password("pw").expect("hashing works");
    assert_eq!(hash.len(), 60);
    assert!(hash.starts_with("$2b$12$"));
    assert_ne!(hash, "pw");
}

#[test]
fn empty_and_long_passwords_hash_and_verify() {
    let empty = hash_password("").expect("hashing works");
    assert!(AuthService::verify_password("", &empty));
    assert!(!AuthService::verify_password("x", &empty));
    let long = "p".repeat(100);
    let hash = hash_password(&long).expect("hashing works");
    assert!(AuthService::verify_password(&long, &hash));
}

#[test]
fn hashes_made_elsewhere_verify() {
    let online = "$2a$04$UuTkLRZZ6QofpDOlMz32MuuxEHA43WOemOYHPz6.SjsVsyO1tDU96";
    assert!(AuthService::verify_password("password", online));
    let python = "$2b$04$EGdrhbKUv8Oc9vGiXX0HQOxSg445d458Muh7DAHskb6QbtCvdxcie";
    assert!(AuthService::verify_password("correctbatteryhorsestapler", python));
    assert!(!AuthService::verify_password("wrong", python));
}

#[test]
fn a_stored_text_that_is_no_hash_is_a_mismatch() {
    assert!(!AuthService::verify_password("secret", ""));
    assert!(!AuthService::verify_password("secret", "secret"));
    assert!(!AuthService::verify_password("secret", "not a hash at all"));
    assert!(!AuthService::verify_password(
        "correctbatteryhorsestapler",
        "$2a$04$n4Uy0eSnMfvnESYL.bLwuuj0U/ETSsoTpRT9GVk$5bektyVVa5xnIi"
    ));
    assert!(!AuthService::verify_password(
        "correctbatteryhorsestapler",
        "$2a$ab$n4Uy0eSnMfvnESYL.bLwuuj0U/ETSsoTpRT9GVk$5bektyVVa5xnIi"
    ));
    assert!(!AuthService::verify_password(
        "secret",
        "$2b$12$\u{e9}\u{e9}\u{e9}\u{e9}\u{e9}\u{e9}\u{e9}\u{e9}\u{e9}\u{e9}\u{e9}\u{e9}\u{e9}\u{e9}\u{e9}\u{e9}\u{e9}\u{e9}\u{e9}\u{e9}\u{e9}\u{e9}\u{e9}\u{e9}\u{e9}\u{e9}x"
    ));
}

#[test]
fn a_hasher_that_fails_is_a_configuration_fault() {
    let failed: Result<String, bcrypt::BcryptError> = Err(bcrypt::BcryptError::CostNotAllowed(99));
    assert_eq!(hashed_or_fault(failed), Err(AuthError::ConfigurationFault));
    assert_eq!(hashed_or_fault(Ok("h".to_string())), Ok("h".to_string()));
}

#[test]
fn only_an_equal_comparison_is_a_match() {
    assert!(matched(Ok(true)));
    assert!(!matched(Ok(false)));
    assert!(!matched(Err(bcrypt::BcryptError::InvalidHash("the hash format is malformed"))));
    assert!(!matched(Err(bcrypt::BcryptError::CostNotAllowed(99))));
}
