use cloud_calc::auth::{
    admin_user_record, check_confirmation, login_outcome, registration_record, AuthError, AuthUser,
    UserRecord,
};
use cloud_calc::password::{hash_new_password, hash_with_salt, verify_password};

const SALT: &str = "c29tZXNhbHRzb21lc2FsdA";

#[test]
fn new_password_hash_verifies() {
    let h = hash_new_password("s3cret").unwrap();
    assert!(h.starts_with("$argon2id$"));
    assert_ne!(h, "s3cret");
    assert_eq!(verify_password("s3cret", &h), Ok(true));
    assert_eq!(verify_password("S3cret", &h), Ok(false));
}

#[test]
fn fresh_salts_differ() {
    let a = hash_new_password("same").unwrap();
    let b = hash_new_password("same").unwrap();
    assert_ne!(a, b);
}

#[test]
fn hashing_with_a_given_salt_is_repeatable() {
    let a = hash_with_salt("pw", SALT).unwrap();
    let b = hash_with_salt("pw", SALT).unwrap();
    assert_eq!(a, b);
    assert!(a.contains(SALT));
    assert_ne!(a, "pw");
    assert_eq!(verify_password("pw", &a), Ok(true));
    assert_ne!(hash_with_salt("other", SALT).unwrap(), a);
}

#[test]
fn hashing_with_an_unusable_salt_fails() {
    let e = hash_with_salt("pw", "ab").unwrap_err();
    assert!(e.starts_with("salt invalid"), "{e}");
}

#[test]
fn malformed_stored_hash_is_a_parse_error() {
    let e = verify_password("pw", "not a hash").unwrap_err();
    assert_eq!(e, "password hash string missing field");
}

#[test]
fn confirmation_must_match() {
    assert_eq!(check_confirmation("abc", "abc"), Ok(()));
    assert_eq!(check_confirmation("abc", "abd"), Err(AuthError::PasswordsDoNotMatch));
    assert_eq!(
        AuthError::PasswordsDoNotMatch.message(),
        "Passwords do not match"
    );
}

#[test]
fn taken_username_is_refused() {
    assert_eq!(
        registration_record("alice", "pw", true),
        Err(AuthError::UsernameExists)
    );
    assert_eq!(AuthError::UsernameExists.message(), "Username already exists");
}

#[test]
fn registration_makes_an_ordinary_account() {
    let u = registration_record("alice", "pw", false).unwrap();
    assert_eq!(u.username, "alice");
    assert_eq!(u.role, "user");
    assert_eq!(verify_password("pw", &u.password_hash), Ok(true));
}

#[test]
fn admin_created_account_keeps_its_role() {
    let u = admin_user_record("bob", "pw2", "admin").unwrap();
    assert_eq!(u.username, "bob");
    assert_eq!(u.role, "admin");
    assert_eq!(verify_password("pw2", &u.password_hash), Ok(true));
}

fn record(hash: &str) -> UserRecord {
    UserRecord {
        id: 7,
        username: "alice".to_string(),
        password_hash: hash.to_string(),
        role: "user".to_string(),
    }
}

#[test]
fn registered_password_logs_in() {
    let u = registration_record("alice", "pw", false).unwrap();
    let r = record(&u.password_hash);
    assert_eq!(
        login_outcome(Some(r), "pw"),
        Ok(AuthUser { id: 7, username: "alice".to_string(), role: "user".to_string() })
    );
}

#[test]
fn login_errors() {
    assert_eq!(login_outcome(None, "pw"), Err(AuthError::UserNotFound));
    let h = hash_with_salt("pw", SALT).unwrap();
    assert_eq!(login_outcome(Some(record(&h)), "wrong"), Err(AuthError::InvalidPassword));
    let e = login_outcome(Some(record("garbage")), "pw").unwrap_err();
    assert_eq!(
        e,
        AuthError::HashParse("password hash string missing field".to_string())
    );
    assert_eq!(
        e.message(),
        "Password hash parse error: password hash string missing field"
    );
    assert_eq!(AuthError::UserNotFound.message(), "User not found");
    assert_eq!(AuthError::InvalidPassword.message(), "Invalid password");
    assert_eq!(
        AuthError::Hashing("boom".to_string()).message(),
        "Password hashing failed: boom"
    );
    assert_eq!(AuthError::Database("db down".to_string()).message(), "db down");
}
