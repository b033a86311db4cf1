use voter_auth::codes::{
    consume, consume_decision, send, send_decision, send_with_code, Channel,
};
use voter_auth::models::ServiceError;
use voter_auth::ttlmap::TtlMap;

#[test]
fn send_stores_zero_padded_code() {
    let mut kv: TtlMap<String> = TtlMap::new();
    let addr = "a@x.com".to_string();
    let r = send_with_code(&mut kv, Channel::Email, &addr, 1000, 42517);
    assert!(r.is_ok());
    let stored = kv.get(&"email-verify-a@x.com".to_string(), 1000);
    assert_eq!(stored, Some(&"042517".to_string()));
}

#[test]
fn consume_correct_code_repeatedly_within_ttl() {
    let mut kv: TtlMap<String> = TtlMap::new();
    let addr = "a@x.com".to_string();
    send_with_code(&mut kv, Channel::Email, &addr, 1000, 42517).unwrap();
    let code = "042517".to_string();
    // Validation is read-only: the same code keeps validating inside the
    // one-hour window.
    assert!(consume(&kv, Channel::Email, &addr, &code, 1000).is_ok());
    assert!(consume(&kv, Channel::Email, &addr, &code, 1000).is_ok());
    assert!(consume(&kv, Channel::Email, &addr, &code, 1000 + 3599).is_ok());
}

#[test]
fn consume_fails_after_ttl_expiry() {
    let mut kv: TtlMap<String> = TtlMap::new();
    let addr = "a@x.com".to_string();
    send_with_code(&mut kv, Channel::Email, &addr, 1000, 42517).unwrap();
    let code = "042517".to_string();
    let r = consume(&kv, Channel::Email, &addr, &code, 1000 + 3600);
    assert_eq!(r, Err(ServiceError::IncorrectVerifyCode));
}

#[test]
fn consume_rejects_wrong_or_missing_code() {
    let mut kv: TtlMap<String> = TtlMap::new();
    let addr = "a@x.com".to_string();
    assert_eq!(
        consume(&kv, Channel::Email, &addr, &"000000".to_string(), 1000),
        Err(ServiceError::IncorrectVerifyCode)
    );
    send_with_code(&mut kv, Channel::Email, &addr, 1000, 42517).unwrap();
    assert_eq!(
        consume(&kv, Channel::Email, &addr, &"042518".to_string(), 1000),
        Err(ServiceError::IncorrectVerifyCode)
    );
}

#[test]
fn second_send_within_a_minute_is_too_frequent() {
    let mut kv: TtlMap<String> = TtlMap::new();
    let addr = "5550001".to_string();
    assert!(send_with_code(&mut kv, Channel::Phone, &addr, 1000, 1).is_ok());
    let r = send_with_code(&mut kv, Channel::Phone, &addr, 1059, 2);
    assert_eq!(r, Err(ServiceError::TooFrequent));
    // The code from the first send is still the stored one.
    assert_eq!(
        kv.get(&"phone-verify-5550001".to_string(), 1059),
        Some(&"000001".to_string())
    );
}

#[test]
fn send_succeeds_again_after_the_guard_lapses() {
    let mut kv: TtlMap<String> = TtlMap::new();
    let addr = "5550001".to_string();
    send_with_code(&mut kv, Channel::Phone, &addr, 1000, 1).unwrap();
    let r = send_with_code(&mut kv, Channel::Phone, &addr, 1060, 2);
    assert!(r.is_ok());
    assert_eq!(
        kv.get(&"phone-verify-5550001".to_string(), 1060),
        Some(&"000002".to_string())
    );
}

#[test]
fn channels_are_rate_limited_independently() {
    let mut kv: TtlMap<String> = TtlMap::new();
    let addr = "a@x.com".to_string();
    send_with_code(&mut kv, Channel::Email, &addr, 1000, 1).unwrap();
    // The same address on the other channel has its own guard.
    assert!(send_with_code(&mut kv, Channel::Phone, &addr, 1001, 2).is_ok());
}

#[test]
fn random_send_stores_some_six_digit_code() {
    let mut kv: TtlMap<String> = TtlMap::new();
    let addr = "a@x.com".to_string();
    assert!(send(&mut kv, Channel::Email, &addr, 1000).is_ok());
    let stored = kv.get(&"email-verify-a@x.com".to_string(), 1000).unwrap().clone();
    assert_eq!(stored.len(), 6);
    assert!(stored.chars().all(|c| c.is_ascii_digit()));
    // And the guard is armed.
    assert_eq!(
        send(&mut kv, Channel::Email, &addr, 1001),
        Err(ServiceError::TooFrequent)
    );
}

#[test]
fn decision_functions_match_the_protocol() {
    assert_eq!(send_decision(None, 7), Ok("000007".to_string()));
    let guard = "guard".to_string();
    assert_eq!(send_decision(Some(&guard), 7), Err(ServiceError::TooFrequent));
    let other = "stale".to_string();
    assert_eq!(send_decision(Some(&other), 7), Ok("000007".to_string()));

    let stored = "123456".to_string();
    assert!(consume_decision(Some(&stored), &"123456".to_string()).is_ok());
    assert_eq!(
        consume_decision(Some(&stored), &"654321".to_string()),
        Err(ServiceError::IncorrectVerifyCode)
    );
    assert_eq!(
        consume_decision(None, &"123456".to_string()),
        Err(ServiceError::IncorrectVerifyCode)
    );
}
