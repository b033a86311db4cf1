use jwt_simple::prelude::{
    Audiences, ECDSAP256kKeyPairLike, ECDSAP256kPublicKeyLike, ES256kKeyPair, UnixTimeStamp,
    VerificationOptions,
};
use voter_auth::account_management::{remove_voter, update_email, update_phone};
use voter_auth::codes::{send_with_code, Channel};
use voter_auth::models::{ServiceError, Voter};
use voter_auth::new_login::{
    check_email_availability, login_email, login_phone, signup_email,
};
use voter_auth::session::LoginSession;
use voter_auth::store::{VoterFilter, VoterStore};
use voter_auth::thbwiki_login::redirect_callback;
use voter_auth::token::make_login_results;
use voter_auth::ttlmap::TtlMap;

fn blank_voter() -> Voter {
    Voter {
        _id: None,
        phone: None,
        phone_verified: false,
        email: None,
        email_verified: false,
        password_hashed: None,
        salt: None,
        created_at: 0,
        nickname: None,
        signup_ip: None,
        qq_openid: None,
        pfp: None,
        thbwiki_uid: None,
        removed: false,
    }
}

fn decoded_vote_id(claims: &jwt_simple::claims::JWTClaims<serde_json::Value>) -> String {
    claims.custom.get("vote_id").unwrap().as_str().unwrap().to_string()
}

#[test]
fn signup_via_email_code_creates_verified_passwordless_voter() {
    let mut voters = VoterStore::new();
    let mut kv: TtlMap<String> = TtlMap::new();
    let sessions: TtlMap<LoginSession> = TtlMap::new();
    let email = "a@x.com".to_string();

    send_with_code(&mut kv, Channel::Email, &email, 1000, 42517).unwrap();
    assert_eq!(
        kv.get(&"email-verify-a@x.com".to_string(), 1000),
        Some(&"042517".to_string())
    );

    let r = login_email(
        &mut voters,
        &kv,
        &sessions,
        &email,
        &"042517".to_string(),
        &Some("Ann".to_string()),
        &None,
        &None,
        1000,
    );
    let v = r.unwrap();
    assert_eq!(v.email, Some(email.clone()));
    assert!(v.email_verified);
    assert_eq!(v.password_hashed, None);
    assert_eq!(v.nickname, Some("Ann".to_string()));
    assert!(!check_email_availability(&voters, &email));

    // A session token for the new voter carries audience "userspace".
    let key = ES256kKeyPair::generate();
    let token = v.generate_user_auth(&key).unwrap();
    let claims = key.public_key().verify_token::<serde_json::Value>(&token, None).unwrap();
    assert_eq!(
        claims.audiences,
        Some(Audiences::AsString("userspace".to_string()))
    );
    assert_eq!(decoded_vote_id(&claims), v._id.unwrap());
}

#[test]
fn signup_with_wrong_code_fails() {
    let mut voters = VoterStore::new();
    let mut kv: TtlMap<String> = TtlMap::new();
    let sessions: TtlMap<LoginSession> = TtlMap::new();
    let email = "a@x.com".to_string();
    send_with_code(&mut kv, Channel::Email, &email, 1000, 42517).unwrap();
    let r = signup_email(
        &mut voters,
        &kv,
        &sessions,
        &email,
        &"000000".to_string(),
        &None,
        &None,
        &None,
        1000,
    );
    assert_eq!(r, Err(ServiceError::IncorrectVerifyCode));
    assert!(check_email_availability(&voters, &email));
}

#[test]
fn signup_against_claimed_email_fails() {
    let mut voters = VoterStore::new();
    let mut kv: TtlMap<String> = TtlMap::new();
    let sessions: TtlMap<LoginSession> = TtlMap::new();
    let email = "a@x.com".to_string();
    let mut v = blank_voter();
    v.email = Some(email.clone());
    voters.insert(v);
    send_with_code(&mut kv, Channel::Email, &email, 1000, 42517).unwrap();
    let r = signup_email(
        &mut voters,
        &kv,
        &sessions,
        &email,
        &"042517".to_string(),
        &None,
        &None,
        &None,
        1000,
    );
    assert_eq!(r, Err(ServiceError::UserAlreadyExists));
}

#[test]
fn vote_token_requires_a_verified_channel() {
    let key = ES256kKeyPair::generate();
    let mut v = blank_voter();
    v._id = Some("7".to_string());
    // Neither channel verified: issuance must fail.
    assert_eq!(
        v.generate_vote_token(2021, &key),
        Err(ServiceError::UserNotVerified)
    );
    assert_eq!(v.generate_vote_id(2021), Err(ServiceError::UserNotVerified));

    // One verified channel suffices.
    v.phone_verified = true;
    assert_eq!(v.generate_vote_id(2021), Ok("thvote-2021-7".to_string()));
    let token = v.generate_vote_token(2021, &key).unwrap();
    let mut opts = VerificationOptions::default();
    // The campaign window is fixed; validate at an instant inside it.
    opts.artificial_time = Some(UnixTimeStamp::from_secs(1633060900));
    let claims = key
        .public_key()
        .verify_token::<serde_json::Value>(&token, Some(opts))
        .unwrap();
    assert_eq!(claims.audiences, Some(Audiences::AsString("vote".to_string())));
    assert_eq!(decoded_vote_id(&claims), "thvote-2021-7");
    assert_eq!(
        claims.invalid_before,
        Some(UnixTimeStamp::from_secs(1633060800))
    );
    assert_eq!(
        claims.expires_at,
        Some(UnixTimeStamp::from_secs(1633060800 + 604800))
    );
}

#[test]
fn login_results_bundle_both_tokens() {
    let key = ES256kKeyPair::generate();
    let mut v = blank_voter();
    v._id = Some("3".to_string());
    v.email = Some("a@x.com".to_string());
    v.email_verified = true;
    v.nickname = Some("Ann".to_string());
    let lr = make_login_results(&v, 2021, &key).unwrap();
    assert_eq!(lr.user.username, Some("Ann".to_string()));
    assert_eq!(lr.user.email, Some("a@x.com".to_string()));
    assert!(!lr.user.password);
    assert!(!lr.vote_token.is_empty());
    assert!(!lr.session_token.is_empty());

    let mut unverified = blank_voter();
    unverified._id = Some("4".to_string());
    assert_eq!(
        make_login_results(&unverified, 2021, &key),
        Err(ServiceError::UserNotVerified)
    );
}

#[test]
fn federated_callback_without_email_redirects_to_signup() {
    let mut voters = VoterStore::new();
    let mut sessions: TtlMap<LoginSession> = TtlMap::new();
    let r = redirect_callback(
        &mut voters,
        &mut sessions,
        &"U1".to_string(),
        &None,
        &Some("Ann".to_string()),
        &Some("10.0.0.1".to_string()),
        1000,
    );
    let (sid, nickname) = match r {
        Err(ServiceError::RedirectToSignup { sid, nickname }) => (sid, nickname),
        other => panic!("expected RedirectToSignup, got {:?}", other),
    };
    assert_eq!(nickname, Some("Ann".to_string()));

    // A later phone login that carries the session id links the uid.
    let mut kv: TtlMap<String> = TtlMap::new();
    let phone = "5550001".to_string();
    send_with_code(&mut kv, Channel::Phone, &phone, 1100, 7).unwrap();
    let v = login_phone(
        &mut voters,
        &kv,
        &sessions,
        &phone,
        &"000007".to_string(),
        &None,
        &None,
        &Some(sid),
        1100,
    )
    .unwrap();
    assert_eq!(v.thbwiki_uid, Some("U1".to_string()));
    assert!(v.phone_verified);
}

#[test]
fn federated_callback_with_known_email_links_uid() {
    let mut voters = VoterStore::new();
    let mut sessions: TtlMap<LoginSession> = TtlMap::new();
    let mut v = blank_voter();
    v.email = Some("a@x.com".to_string());
    voters.insert(v);
    let r = redirect_callback(
        &mut voters,
        &mut sessions,
        &"U1".to_string(),
        &Some("a@x.com".to_string()),
        &None,
        &None,
        1000,
    );
    assert_eq!(r.unwrap().thbwiki_uid, Some("U1".to_string()));
    let stored = voters.find_one(&VoterFilter::ByEmail("a@x.com".to_string())).unwrap();
    assert_eq!(stored.thbwiki_uid, Some("U1".to_string()));
}

#[test]
fn federated_callback_with_new_email_creates_unverified_voter() {
    let mut voters = VoterStore::new();
    let mut sessions: TtlMap<LoginSession> = TtlMap::new();
    let v = redirect_callback(
        &mut voters,
        &mut sessions,
        &"U1".to_string(),
        &Some("new@x.com".to_string()),
        &Some("Ann".to_string()),
        &None,
        1000,
    )
    .unwrap();
    assert_eq!(v.email, Some("new@x.com".to_string()));
    assert!(!v.email_verified);
    assert_eq!(v.thbwiki_uid, Some("U1".to_string()));
    assert_eq!(v._id, Some("0".to_string()));
}

#[test]
fn update_email_requires_code_for_the_new_address() {
    let mut voters = VoterStore::new();
    let mut kv: TtlMap<String> = TtlMap::new();
    let uid = voters.insert(blank_voter());
    let new_email = "new@x.com".to_string();
    let r = update_email(&mut voters, &kv, &uid, &new_email, &"042517".to_string(), 1000);
    assert_eq!(r, Err(ServiceError::IncorrectVerifyCode));

    send_with_code(&mut kv, Channel::Email, &new_email, 1000, 42517).unwrap();
    let r2 = update_email(&mut voters, &kv, &uid, &new_email, &"042517".to_string(), 1000);
    assert!(r2.is_ok());
    let stored = voters.find_one(&VoterFilter::ById(uid)).unwrap();
    assert_eq!(stored.email, Some(new_email));
    assert!(stored.email_verified);
}

#[test]
fn update_phone_for_missing_voter_fails() {
    let mut voters = VoterStore::new();
    let mut kv: TtlMap<String> = TtlMap::new();
    let phone = "5550001".to_string();
    send_with_code(&mut kv, Channel::Phone, &phone, 1000, 7).unwrap();
    let r = update_phone(&mut voters, &kv, &"42".to_string(), &phone, &"000007".to_string(), 1000);
    assert_eq!(r, Err(ServiceError::UserNotFound));
}

#[test]
fn removed_voter_is_cleared_and_behaves_as_absent() {
    let mut voters = VoterStore::new();
    let mut kv: TtlMap<String> = TtlMap::new();
    let mut v = blank_voter();
    v.email = Some("a@x.com".to_string());
    v.email_verified = true;
    let uid = voters.insert(v);
    remove_voter(&mut voters, &uid).unwrap();

    let stored = voters.find_one(&VoterFilter::ById(uid.clone())).unwrap();
    assert!(stored.removed);
    assert_eq!(stored.email, None);
    assert!(!stored.email_verified);
    // No longer reachable by email, and account updates treat it as absent.
    assert!(voters.find_one(&VoterFilter::ByEmail("a@x.com".to_string())).is_none());
    let phone = "5550001".to_string();
    send_with_code(&mut kv, Channel::Phone, &phone, 1000, 7).unwrap();
    let r = update_phone(&mut voters, &kv, &uid, &phone, &"000007".to_string(), 1000);
    assert_eq!(r, Err(ServiceError::UserNotFound));
}

#[test]
fn expired_session_is_not_merged() {
    let mut voters = VoterStore::new();
    let mut sessions: TtlMap<LoginSession> = TtlMap::new();
    let mut kv: TtlMap<String> = TtlMap::new();
    let r = redirect_callback(
        &mut voters,
        &mut sessions,
        &"U1".to_string(),
        &None,
        &None,
        &None,
        1000,
    );
    let sid = match r {
        Err(ServiceError::RedirectToSignup { sid, .. }) => sid,
        other => panic!("expected RedirectToSignup, got {:?}", other),
    };
    // The session lives one hour; log in after it expired.
    let phone = "5550001".to_string();
    send_with_code(&mut kv, Channel::Phone, &phone, 4600, 7).unwrap();
    let v = login_phone(
        &mut voters,
        &kv,
        &sessions,
        &phone,
        &"000007".to_string(),
        &None,
        &None,
        &Some(sid),
        4600,
    )
    .unwrap();
    assert_eq!(v.thbwiki_uid, None);
}
