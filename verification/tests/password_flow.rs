use voter_auth::account_management::{update_password, update_password_with_salt};
use voter_auth::legacy_login::{login_email_password, login_email_password_with_salt};
use voter_auth::models::{ServiceError, Voter};
use voter_auth::password::{change_password, verify_and_upgrade};
use voter_auth::session::LoginSession;
use voter_auth::store::{VoterFilter, VoterStore};
use voter_auth::ttlmap::TtlMap;

fn voter_with(email: &str, hash: Option<String>, salt: Option<String>) -> Voter {
    Voter {
        _id: None,
        phone: None,
        phone_verified: false,
        email: Some(email.to_string()),
        email_verified: true,
        password_hashed: hash,
        salt: salt,
        created_at: 0,
        nickname: None,
        signup_ip: None,
        qq_openid: None,
        pfp: None,
        thbwiki_uid: None,
        removed: false,
    }
}

fn legacy_hash(password: &str, salt: &str) -> String {
    let mut combined = password.to_string();
    combined.push_str(salt);
    bcrypt::hash(combined, 4).unwrap()
}

#[test]
fn legacy_login_migrates_then_modern_login_succeeds() {
    let mut voters = VoterStore::new();
    let sessions: TtlMap<LoginSession> = TtlMap::new();
    let hash = legacy_hash("secret", "s0lt");
    voters.insert(voter_with("a@x.com", Some(hash), Some("s0lt".to_string())));

    let email = "a@x.com".to_string();
    let r = login_email_password(&mut voters, &sessions, &email, &"secret".to_string(), &None, 100);
    let migrated = r.unwrap();
    assert_eq!(migrated.salt, None);
    let new_hash = migrated.password_hashed.clone().unwrap();
    assert!(new_hash.starts_with("$argon2"));
    assert!(argon2::verify_encoded(&new_hash, b"secret").unwrap());

    // The migrated record was persisted.
    let stored = voters.find_one(&VoterFilter::ByEmail(email.clone())).unwrap();
    assert_eq!(stored.salt, None);
    assert_eq!(stored.password_hashed, Some(new_hash));

    // A second login with the same password succeeds through the modern path.
    let r2 = login_email_password(&mut voters, &sessions, &email, &"secret".to_string(), &None, 200);
    assert!(r2.is_ok());
    assert_eq!(r2.unwrap().salt, None);
}

#[test]
fn incorrect_password_never_mutates_the_record() {
    let mut voters = VoterStore::new();
    let sessions: TtlMap<LoginSession> = TtlMap::new();
    let hash = legacy_hash("secret", "s0lt");
    voters.insert(voter_with("a@x.com", Some(hash.clone()), Some("s0lt".to_string())));

    let email = "a@x.com".to_string();
    let r = login_email_password(&mut voters, &sessions, &email, &"wrong".to_string(), &None, 100);
    assert_eq!(r, Err(ServiceError::IncorrectPassword));
    let stored = voters.find_one(&VoterFilter::ByEmail(email.clone())).unwrap();
    assert_eq!(stored.password_hashed, Some(hash));
    assert_eq!(stored.salt, Some("s0lt".to_string()));

    // Same for a modern record.
    let mut voters2 = VoterStore::new();
    let modern = argon2::hash_encoded(b"secret", b"0123456789abcdef", &argon2::Config::default())
        .unwrap();
    voters2.insert(voter_with("b@x.com", Some(modern.clone()), None));
    let r2 = login_email_password(
        &mut voters2,
        &sessions,
        &"b@x.com".to_string(),
        &"wrong".to_string(),
        &None,
        100,
    );
    assert_eq!(r2, Err(ServiceError::IncorrectPassword));
    let stored2 = voters2.find_one(&VoterFilter::ByEmail("b@x.com".to_string())).unwrap();
    assert_eq!(stored2.password_hashed, Some(modern));
}

#[test]
fn passwordless_account_rejects_password_login() {
    let mut voters = VoterStore::new();
    let sessions: TtlMap<LoginSession> = TtlMap::new();
    voters.insert(voter_with("a@x.com", None, None));
    let r = login_email_password(
        &mut voters,
        &sessions,
        &"a@x.com".to_string(),
        &"secret".to_string(),
        &None,
        100,
    );
    assert_eq!(r, Err(ServiceError::LoginMethodNotSupported));
}

#[test]
fn unknown_email_fails_with_user_not_found() {
    let mut voters = VoterStore::new();
    let sessions: TtlMap<LoginSession> = TtlMap::new();
    let r = login_email_password(
        &mut voters,
        &sessions,
        &"no@x.com".to_string(),
        &"secret".to_string(),
        &None,
        100,
    );
    assert_eq!(r, Err(ServiceError::UserNotFound));
}

#[test]
fn hashing_fault_surfaces_as_unknown() {
    // A two-byte salt is rejected by argon2, and the flow wraps that
    // collaborator failure into Unknown.
    let mut voters = VoterStore::new();
    let sessions: TtlMap<LoginSession> = TtlMap::new();
    let hash = legacy_hash("secret", "s0lt");
    voters.insert(voter_with("a@x.com", Some(hash), Some("s0lt".to_string())));
    let r = login_email_password_with_salt(
        &mut voters,
        &sessions,
        &"a@x.com".to_string(),
        &"secret".to_string(),
        &None,
        100,
        &vec![0u8, 1u8],
    );
    assert!(matches!(r, Err(ServiceError::Unknown { .. })));
}

#[test]
fn verify_and_upgrade_keeps_modern_record_unchanged() {
    let modern = argon2::hash_encoded(b"secret", b"0123456789abcdef", &argon2::Config::default())
        .unwrap();
    let v = voter_with("a@x.com", Some(modern.clone()), None);
    let r = verify_and_upgrade(&v, &"secret".to_string(), &vec![7u8; 16]);
    let (v2, migrated) = r.unwrap();
    assert!(!migrated);
    assert_eq!(v2.password_hashed, Some(modern));
}

#[test]
fn change_password_requires_the_old_password() {
    let modern = argon2::hash_encoded(b"old-pw", b"0123456789abcdef", &argon2::Config::default())
        .unwrap();
    let v = voter_with("a@x.com", Some(modern), None);
    let r = change_password(&v, &None, &"new-pw".to_string(), &vec![7u8; 16]);
    assert_eq!(r, Err(ServiceError::IncorrectPassword));
    let r2 = change_password(&v, &Some("bad".to_string()), &"new-pw".to_string(), &vec![7u8; 16]);
    assert_eq!(r2, Err(ServiceError::IncorrectPassword));
    let r3 = change_password(&v, &Some("old-pw".to_string()), &"new-pw".to_string(), &vec![7u8; 16]);
    let updated = r3.unwrap();
    assert_eq!(updated.salt, None);
    assert!(argon2::verify_encoded(&updated.password_hashed.unwrap(), b"new-pw").unwrap());
}

#[test]
fn update_password_rewrites_legacy_to_modern() {
    let mut voters = VoterStore::new();
    let hash = legacy_hash("secret", "s0lt");
    let uid = voters.insert(voter_with("a@x.com", Some(hash), Some("s0lt".to_string())));
    let r = update_password_with_salt(
        &mut voters,
        &uid,
        &Some("secret".to_string()),
        &"fresh-pw".to_string(),
        &vec![9u8; 16],
    );
    assert!(r.is_ok());
    let stored = voters.find_one(&VoterFilter::ById(uid)).unwrap();
    assert_eq!(stored.salt, None);
    assert!(argon2::verify_encoded(stored.password_hashed.as_ref().unwrap(), b"fresh-pw").unwrap());
}

#[test]
fn update_password_on_missing_record_fails_with_user_not_found() {
    let mut voters = VoterStore::new();
    let r = update_password(
        &mut voters,
        &"42".to_string(),
        &Some("x".to_string()),
        &"y".to_string(),
    );
    assert_eq!(r, Err(ServiceError::UserNotFound));
}

#[test]
fn update_password_on_removed_record_fails_with_user_not_found() {
    let mut voters = VoterStore::new();
    let modern = argon2::hash_encoded(b"secret", b"0123456789abcdef", &argon2::Config::default())
        .unwrap();
    let mut v = voter_with("a@x.com", Some(modern.clone()), None);
    v.removed = true;
    let uid = voters.insert(v);
    let r = update_password(&mut voters, &uid, &Some("secret".to_string()), &"new".to_string());
    assert_eq!(r, Err(ServiceError::UserNotFound));
    // The record keeps its hash untouched.
    let stored = voters.find_one(&VoterFilter::ById(uid)).unwrap();
    assert_eq!(stored.password_hashed, Some(modern));
}

#[test]
fn update_password_with_random_salt_produces_a_valid_hash() {
    let mut voters = VoterStore::new();
    let modern = argon2::hash_encoded(b"old-pw", b"0123456789abcdef", &argon2::Config::default())
        .unwrap();
    let uid = voters.insert(voter_with("a@x.com", Some(modern), None));
    let r = update_password(&mut voters, &uid, &Some("old-pw".to_string()), &"new-pw".to_string());
    assert!(r.is_ok());
    let stored = voters.find_one(&VoterFilter::ById(uid)).unwrap();
    assert!(argon2::verify_encoded(stored.password_hashed.as_ref().unwrap(), b"new-pw").unwrap());
}
