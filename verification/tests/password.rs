use iam_platform::error::AppError;
use iam_platform::password::{hash_password, verify_password};

#[test]
fn test_hashed_password_return_hash() {
    let hash = hash_password("mysecrectpassword").unwrap();
    assert_ne!(hash, "mysecrectpassword");
}

#[test]
fn test_verify_correct_password() {
    let hash = hash_password("mysecrectpassword").unwrap();
    let result = verify_password("mysecrectpassword", &hash).unwrap();
    assert!(result);
}

#[test]
fn test_verify_wrong_password() {
    let hash = hash_password("mysecrectpassword").unwrap();
    let result = verify_password("wrongpassword", &hash).unwrap();
    assert!(!result);
}

#[test]
fn test_same_password_produces_different_hash() {
    let hash1 = hash_password("mysecrectpassword").unwrap();
    let hash2 = hash_password("mysecrectpassword").unwrap();

    assert_ne!(hash1, hash2);
}

#[test]
fn test_empty_password_still_hashes() {
    let result = hash_password("");
    assert!(result.is_ok());
}

#[test]
fn hash_is_sixty_characters_of_bcrypt() {
    let hash = hash_password("another secret").unwrap();
    assert_eq!(hash.chars().count(), 60);
    assert!(hash.starts_with("$2b$12$"));
}

#[test]
fn malformed_hash_is_a_password_hash_error() {
    let r = verify_password("whatever", "not-a-bcrypt-hash");
    assert!(matches!(r, Err(AppError::PassWordHashErr(_))));
}
