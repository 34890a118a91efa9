use captcha_auth::password::{hash_password, verify_password, PasswordError};
use captcha_auth::token::{issue_jwt, issue_jwt_at, verify_jwt, verify_jwt_at, Claims, TokenError};

#[test]
fn hash_then_verify_accepts_same_password() {
    let h = hash_password("s3cret-pass").unwrap();
    assert!(h.starts_with("$argon2"));
    assert_ne!(h, "s3cret-pass");
    assert_eq!(verify_password("s3cret-pass", &h), Ok(true));
}

#[test]
fn verify_rejects_other_password() {
    let h = hash_password("s3cret-pass").unwrap();
    assert_eq!(verify_password("s3cret-pasS", &h), Ok(false));
    assert_eq!(verify_password("", &h), Ok(false));
}

#[test]
fn hashing_twice_gives_different_strings() {
    let a = hash_password("same").unwrap();
    let b = hash_password("same").unwrap();
    assert_ne!(a, b);
    assert_eq!(verify_password("same", &a), Ok(true));
    assert_eq!(verify_password("same", &b), Ok(true));
}

#[test]
fn malformed_hash_is_a_format_error() {
    assert_eq!(verify_password("x", "not a hash"), Err(PasswordError::Format));
    assert_eq!(verify_password("x", ""), Err(PasswordError::Format));
}

#[test]
fn token_round_trip_recovers_subject() {
    let t = issue_jwt_at("k1", 3600, 42, 1_700_000_000).unwrap();
    assert_eq!(t.split('.').count(), 3);
    assert_eq!(
        verify_jwt_at("k1", &t, 1_700_000_000),
        Ok(Claims { sub: 42, exp: 1_700_003_600 })
    );
    assert_eq!(
        verify_jwt_at("k1", &t, 1_700_003_599),
        Ok(Claims { sub: 42, exp: 1_700_003_600 })
    );
}

#[test]
fn token_expires_after_ttl() {
    let t = issue_jwt_at("k1", 3600, 42, 1_700_000_000).unwrap();
    assert_eq!(verify_jwt_at("k1", &t, 1_700_003_600), Err(TokenError::Expired));
    assert_eq!(verify_jwt_at("k1", &t, 1_800_000_000), Err(TokenError::Expired));
}

#[test]
fn token_from_other_secret_has_bad_signature() {
    let t = issue_jwt_at("k1", 3600, 42, 1_700_000_000).unwrap();
    assert_eq!(verify_jwt_at("k2", &t, 1_700_000_000), Err(TokenError::SignatureInvalid));
}

#[test]
fn garbage_token_is_malformed() {
    assert_eq!(verify_jwt_at("k1", "abc", 0), Err(TokenError::Malformed));
    assert_eq!(verify_jwt_at("k1", "a.b.c", 0), Err(TokenError::Malformed));
    assert_eq!(verify_jwt_at("k1", "", 0), Err(TokenError::Malformed));
}

#[test]
fn token_expiry_overflow_is_refused() {
    assert_eq!(issue_jwt_at("k1", i64::MAX, 1, 10), Err(TokenError::Encoding));
}

#[test]
fn tokens_are_deterministic_given_time() {
    let a = issue_jwt_at("k1", 60, 7, 100).unwrap();
    let b = issue_jwt_at("k1", 60, 7, 100).unwrap();
    assert_eq!(a, b);
    assert_ne!(a, issue_jwt_at("k1", 60, 8, 100).unwrap());
}

#[test]
fn token_with_current_clock() {
    let t = issue_jwt("secret", 604800, 9).unwrap();
    assert_eq!(verify_jwt("secret", &t).map(|c| c.sub), Ok(9));
    let old = issue_jwt("secret", -10, 9).unwrap();
    assert_eq!(verify_jwt("secret", &old), Err(TokenError::Expired));
}

#[test]
fn hashes_share_algorithm_and_cost() {
    let a = hash_password("one").unwrap();
    let b = hash_password("two").unwrap();
    let prefix = "$argon2id$v=19$m=19456,t=2,p=1$";
    assert!(a.starts_with(prefix), "{}", a);
    assert!(b.starts_with(prefix), "{}", b);
    assert!(verify_password("anything else", &a).is_ok());
}
