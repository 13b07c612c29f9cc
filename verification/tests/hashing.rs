use auth_service::utils::hashing::compute_password_hash;
use auth_service::utils::hashing::hash_password_with_salt;
use auth_service::utils::hashing::verify_password_hash;

#[test]
fn a_hash_verifies_against_its_password() {
    let hash = compute_password_hash("Password123!").unwrap();
    assert!(verify_password_hash(&hash, "Password123!"));
}

#[test]
fn a_hash_does_not_verify_against_another_password() {
    let hash = compute_password_hash("Password123!").unwrap();
    assert!(!verify_password_hash(&hash, "Password123!!"));
    assert!(!verify_password_hash(&hash, "password123!"));
    assert!(!verify_password_hash(&hash, ""));
}

#[test]
fn a_hash_is_not_the_password() {
    let hash = compute_password_hash("Password123!").unwrap();
    assert_ne!(hash, "Password123!");
    assert!(!hash.contains("Password123!"));
}

#[test]
fn a_hash_records_algorithm_and_cost() {
    let hash = compute_password_hash("Password123!").unwrap();
    assert!(hash.starts_with("$argon2id$v=19$m=15000,t=2,p=1$"), "{}", hash);
}

#[test]
fn every_hash_has_its_own_salt() {
    let first = compute_password_hash("Password123!").unwrap();
    let second = compute_password_hash("Password123!").unwrap();
    assert_ne!(first, second);
    assert!(verify_password_hash(&first, "Password123!"));
    assert!(verify_password_hash(&second, "Password123!"));
}

#[test]
fn a_text_that_is_no_hash_matches_nothing() {
    assert!(!verify_password_hash("", "Password123!"));
    assert!(!verify_password_hash("Password123!", "Password123!"));
    assert!(!verify_password_hash("$argon2id$v=19$m=15000,t=2,p=1$", "Password123!"));
}

#[test]
fn a_known_hash_verifies() {
    // A reference vector of Argon2id: password "password", salt "somesalt".
    let hash = "$argon2id$v=19$m=256,t=2,p=1$c29tZXNhbHQ$nf65EOgLrQMR/uIPnA4rEsF5h7TKyQwu9U1bMCHGi/4";
    assert!(verify_password_hash(hash, "password"));
    assert!(!verify_password_hash(hash, "sassword"));
}

#[test]
fn a_hash_is_a_function_of_password_and_salt() {
    let first = hash_password_with_salt("Password123!", "c29tZXNhbHQ").unwrap();
    let second = hash_password_with_salt("Password123!", "c29tZXNhbHQ").unwrap();
    assert_eq!(first, second);
    assert!(first.starts_with("$argon2id$v=19$m=15000,t=2,p=1$c29tZXNhbHQ$"), "{}", first);
    assert!(verify_password_hash(&first, "Password123!"));
    let other_salt = hash_password_with_salt("Password123!", "ZGlmZnNhbHQ").unwrap();
    assert_ne!(first, other_salt);
    let other_password = hash_password_with_salt("Password123!!", "c29tZXNhbHQ").unwrap();
    assert_ne!(first, other_password);
}

#[test]
fn a_text_that_is_no_salt_is_refused() {
    assert!(hash_password_with_salt("Password123!", "").is_err());
    assert!(hash_password_with_salt("Password123!", "abc").is_err());
    assert!(hash_password_with_salt("Password123!", "not a salt!").is_err());
}

#[test]
fn hashing_costs_are_what_the_service_is_tuned_for() {
    assert_eq!(auth_service::utils::hashing::HASH_MEMORY_KIB, 15000);
    assert_eq!(auth_service::utils::hashing::HASH_ITERATIONS, 2);
    assert_eq!(auth_service::utils::hashing::HASH_PARALLELISM, 1);
}
