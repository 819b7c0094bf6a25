use travels_backend::utils::password::{
    hash_password, hash_password_with_salt, verify_password, PasswordError,
};

const SALT: &str = "c29tZXNhbHRzb21lc2FsdA";

#[test]
fn hashed_password_is_accepted() {
    let hash = hash_password("hunter2").unwrap();
    assert_eq!(verify_password("hunter2", &hash), Ok(true));
}

#[test]
fn another_password_is_not_accepted() {
    let hash = hash_password_with_salt("hunter2", SALT).unwrap();
    assert_eq!(verify_password("hunter3", &hash), Ok(false));
    assert_eq!(verify_password("", &hash), Ok(false));
    assert_eq!(verify_password("Hunter2", &hash), Ok(false));
}

#[test]
fn hash_is_a_phc_string_and_not_the_password() {
    let hash = hash_password("hunter2").unwrap();
    assert_ne!(hash, "hunter2");
    assert!(!hash.contains("hunter2"));
    assert!(hash.starts_with("$argon2id$v=19$m=19456,t=2,p=1$"));
    // algorithm, version, parameters, salt, digest
    assert_eq!(hash.split('$').count(), 6);
    // sixteen bytes of salt are 22 characters, 32 bytes of digest are 43
    let parts: Vec<&str> = hash.split('$').collect();
    assert_eq!(parts[4].len(), 22);
    assert_eq!(parts[5].len(), 43);
}

#[test]
fn each_hash_has_a_fresh_salt() {
    let first = hash_password("hunter2").unwrap();
    let second = hash_password("hunter2").unwrap();
    assert_ne!(first, second);
    assert_eq!(verify_password("hunter2", &first), Ok(true));
    assert_eq!(verify_password("hunter2", &second), Ok(true));
}

#[test]
fn hash_with_a_given_salt_is_fixed() {
    let first = hash_password_with_salt("hunter2", SALT).unwrap();
    let second = hash_password_with_salt("hunter2", SALT).unwrap();
    assert_eq!(first, second);
    let digest = "leF08Fu/gOi7XGf5NvDjbfR9GY+siUuPd+cKkq57H/c";
    assert_eq!(first, format!("$argon2id$v=19$m=19456,t=2,p=1${}${}", SALT, digest));
    assert_eq!(verify_password("hunter2", &first), Ok(true));
}

#[test]
fn hash_depends_on_salt_and_password() {
    let base = hash_password_with_salt("hunter2", SALT).unwrap();
    assert_ne!(base, hash_password_with_salt("hunter3", SALT).unwrap());
    assert_ne!(base, hash_password_with_salt("hunter2", "b3RoZXJzYWx0b3RoZXJzYQ").unwrap());
}

#[test]
fn salt_that_is_not_base64_is_refused() {
    assert_eq!(hash_password_with_salt("hunter2", "not base64!"), Err(PasswordError::Hashing));
    assert_eq!(hash_password_with_salt("hunter2", ""), Err(PasswordError::Hashing));
    assert_eq!(hash_password_with_salt("hunter2", "abc"), Err(PasswordError::Hashing));
}

#[test]
fn empty_password_can_be_hashed() {
    let hash = hash_password_with_salt("", SALT).unwrap();
    assert_eq!(verify_password("", &hash), Ok(true));
    assert_eq!(verify_password(" ", &hash), Ok(false));
}

#[test]
fn stored_text_that_is_no_hash_is_malformed() {
    assert_eq!(verify_password("hunter2", ""), Err(PasswordError::MalformedHash));
    assert_eq!(verify_password("hunter2", "hunter2"), Err(PasswordError::MalformedHash));
    assert_eq!(verify_password("hunter2", "$"), Err(PasswordError::MalformedHash));
    assert_eq!(
        verify_password("hunter2", "$argon2id$v=19$m=19456,t=2,p=1$***$***"),
        Err(PasswordError::MalformedHash)
    );
}

#[test]
fn well_formed_hash_of_another_scheme_is_a_mismatch() {
    // A PHC string that parses, for an algorithm that Argon2 does not know.
    assert_eq!(
        verify_password("hunter2", "$scrypt$ln=16,r=8,p=1$c29tZXNhbHQ$aGFzaGhhc2hoYXNo"),
        Ok(false)
    );
}
