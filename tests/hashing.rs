use basic_actix_web_server_v2::hash_utils::{
    hash_password, hash_password_with_salt, verify_password, HashError, SALT_LEN,
};

const PREFIX: &str = "$argon2id$v=19$m=19456,t=2,p=1$";

#[test]
fn hash_then_verify_correct_and_wrong() {
    let hash = hash_password("correct").unwrap();
    assert_ne!(hash, "correct");
    assert_eq!(verify_password(&hash, "correct"), Ok(true));
    assert_eq!(verify_password(&hash, "wrong"), Ok(false));
}

#[test]
fn hash_has_phc_format() {
    let hash = hash_password("correct").unwrap();
    assert!(hash.starts_with(PREFIX));
    assert_eq!(hash.len(), PREFIX.len() + 22 + 1 + 43);
    let rest = &hash[PREFIX.len()..];
    let parts: Vec<&str> = rest.split('$').collect();
    assert_eq!(parts.len(), 2);
    assert_eq!(parts[0].len(), 22);
    assert_eq!(parts[1].len(), 43);
}

#[test]
fn hashes_are_salted() {
    let a = hash_password("same").unwrap();
    let b = hash_password("same").unwrap();
    assert_ne!(a, b);
    assert_eq!(verify_password(&a, "same"), Ok(true));
    assert_eq!(verify_password(&b, "same"), Ok(true));
}

#[test]
fn empty_and_non_ascii_passwords_hash() {
    for pw in ["", "pässwörd ✓"] {
        let hash = hash_password(pw).unwrap();
        assert_eq!(verify_password(&hash, pw), Ok(true));
        assert_eq!(verify_password(&hash, "other"), Ok(false));
    }
}

#[test]
fn salted_hash_is_deterministic() {
    let salt = [0u8; SALT_LEN];
    let a = hash_password_with_salt("correct", &salt).unwrap();
    let b = hash_password_with_salt("correct", &salt).unwrap();
    assert_eq!(a, b);
    let expected_start = format!("{}{}$", PREFIX, "A".repeat(22));
    assert!(a.starts_with(&expected_start));
    assert_eq!(a.len(), PREFIX.len() + 22 + 1 + 43);
    assert_eq!(verify_password(&a, "correct"), Ok(true));
    let c = hash_password_with_salt("wrong", &salt).unwrap();
    assert_ne!(a, c);
}

#[test]
fn salt_length_bounds() {
    assert_eq!(hash_password_with_salt("pw", &[1u8; 7]), Err(HashError::InvalidSalt));
    assert_eq!(hash_password_with_salt("pw", &[1u8; 49]), Err(HashError::InvalidSalt));
    assert_eq!(hash_password_with_salt("pw", &[]), Err(HashError::InvalidSalt));
    let shortest = hash_password_with_salt("pw", &[1u8; 8]).unwrap();
    assert_eq!(shortest.len(), PREFIX.len() + 11 + 1 + 43);
    let longest = hash_password_with_salt("pw", &[1u8; 48]).unwrap();
    assert_eq!(longest.len(), PREFIX.len() + 64 + 1 + 43);
    assert_eq!(verify_password(&longest, "pw"), Ok(true));
}

#[test]
fn malformed_hash_is_an_error() {
    assert_eq!(verify_password("not a hash", "correct"), Err(HashError::MalformedHash));
    assert_eq!(verify_password("", "correct"), Err(HashError::MalformedHash));
}
