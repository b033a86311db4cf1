//! Signup and login through one-time email or phone codes, and issuance
//! of those codes.

use vstd::prelude::*;

use crate::codes::{code_matches, consume, guard_live, send, send_effect, Channel, CODE_TTL_SECONDS};
use crate::legacy_login::{session_applied, session_resolves};
use crate::models::{clone_opt_string, ServiceError, Voter};
use crate::session::{apply_session, resolve, LoginSession};
use crate::store::{spec_find, spec_find_idx, VoterFilter, VoterStore};
use crate::strfmt::dec_digits;
use crate::ttlmap::TtlMap;

verus! {

/// `check_email_availability(email)`: no record claims this email.
pub fn check_email_availability(voters: &VoterStore, email: &String) -> (r: bool)
    ensures
        r == (spec_find(voters@, VoterFilter::ByEmail(*email)) is None),
{
    match voters.find_one(&VoterFilter::ByEmail(email.clone())) {
        Some(_) => false,
        None => true,
    }
}

/// `check_phone_availability(phone)`: no record claims this phone.
pub fn check_phone_availability(voters: &VoterStore, phone: &String) -> (r: bool)
    ensures
        r == (spec_find(voters@, VoterFilter::ByPhone(*phone)) is None),
{
    match voters.find_one(&VoterFilter::ByPhone(phone.clone())) {
        Some(_) => false,
        None => true,
    }
}

/// The record a fresh email signup creates, before any session merge and
/// before the store assigns its identifier.
pub open spec fn fresh_email_voter(
    email: String,
    nickname: Option<String>,
    ip: Option<String>,
    now: u64,
) -> Voter {
    Voter {
        _id: None,
        phone: None,
        phone_verified: false,
        email: Some(email),
        email_verified: true,
        password_hashed: None,
        salt: None,
        created_at: now,
        nickname: nickname,
        signup_ip: ip,
        qq_openid: None,
        pfp: None,
        thbwiki_uid: None,
        removed: false,
    }
}

/// The record a fresh phone signup creates.
pub open spec fn fresh_phone_voter(
    phone: String,
    nickname: Option<String>,
    ip: Option<String>,
    now: u64,
) -> Voter {
    Voter {
        _id: None,
        phone: Some(phone),
        phone_verified: true,
        email: None,
        email_verified: false,
        password_hashed: None,
        salt: None,
        created_at: now,
        nickname: nickname,
        signup_ip: ip,
        qq_openid: None,
        pfp: None,
        thbwiki_uid: None,
        removed: false,
    }
}

/// Outcome of `signup_email`: `nid0` is the store's identifier counter
/// before the call.
pub open spec fn signup_email_post(
    voters0: Seq<Voter>,
    voters1: Seq<Voter>,
    kv: Map<Seq<char>, (String, u64)>,
    sessions: Map<Seq<char>, (LoginSession, u64)>,
    email: String,
    verify_code: String,
    nickname: Option<String>,
    ip: Option<String>,
    sid: Option<String>,
    now: u64,
    nid0: u64,
    r: Result<Voter, ServiceError>,
) -> bool {
    if spec_find(voters0, VoterFilter::ByEmail(email)) is Some {
        r matches Err(ServiceError::UserAlreadyExists) && voters1 == voters0
    } else if !code_matches(kv, Channel::Email, email@, verify_code@, now) {
        r matches Err(ServiceError::IncorrectVerifyCode) && voters1 == voters0
    } else {
        r matches Ok(v) && session_applied(
            (Voter { _id: None, ..v }),
            fresh_email_voter(email, nickname, ip, now),
            sessions,
            sid,
            now,
        ) && v._id is Some && v._id->0@ == dec_digits(nid0 as int) && voters1 == voters0.push(v)
    }
}

/// Outcome of `signup_phone`.
pub open spec fn signup_phone_post(
    voters0: Seq<Voter>,
    voters1: Seq<Voter>,
    kv: Map<Seq<char>, (String, u64)>,
    sessions: Map<Seq<char>, (LoginSession, u64)>,
    phone: String,
    verify_code: String,
    nickname: Option<String>,
    ip: Option<String>,
    sid: Option<String>,
    now: u64,
    nid0: u64,
    r: Result<Voter, ServiceError>,
) -> bool {
    if spec_find(voters0, VoterFilter::ByPhone(phone)) is Some {
        r matches Err(ServiceError::UserAlreadyExists) && voters1 == voters0
    } else if !code_matches(kv, Channel::Phone, phone@, verify_code@, now) {
        r matches Err(ServiceError::IncorrectVerifyCode) && voters1 == voters0
    } else {
        r matches Ok(v) && session_applied(
            (Voter { _id: None, ..v }),
            fresh_phone_voter(phone, nickname, ip, now),
            sessions,
            sid,
            now,
        ) && v._id is Some && v._id->0@ == dec_digits(nid0 as int) && voters1 == voters0.push(v)
    }
}

/// Build the record a fresh email signup creates.
pub fn new_email_voter(
    email: &String,
    nickname: &Option<String>,
    ip: &Option<String>,
    now: u64,
) -> (r: Voter)
    ensures
        r == fresh_email_voter(*email, *nickname, *ip, now),
{
    Voter {
        _id: None,
        phone: None,
        phone_verified: false,
        email: Some(email.clone()),
        email_verified: true,
        password_hashed: None,
        salt: None,
        created_at: now,
        nickname: clone_opt_string(nickname),
        signup_ip: clone_opt_string(ip),
        qq_openid: None,
        pfp: None,
        thbwiki_uid: None,
        removed: false,
    }
}

/// Build the record a fresh phone signup creates.
pub fn new_phone_voter(
    phone: &String,
    nickname: &Option<String>,
    ip: &Option<String>,
    now: u64,
) -> (r: Voter)
    ensures
        r == fresh_phone_voter(*phone, *nickname, *ip, now),
{
    Voter {
        _id: None,
        phone: Some(phone.clone()),
        phone_verified: true,
        email: None,
        email_verified: false,
        password_hashed: None,
        salt: None,
        created_at: now,
        nickname: clone_opt_string(nickname),
        signup_ip: clone_opt_string(ip),
        qq_openid: None,
        pfp: None,
        thbwiki_uid: None,
        removed: false,
    }
}

/// `signup via email code`: create a voter with `email_verified` set,
/// no password, and any pending federated claims merged in.
pub fn signup_email(
    voters: &mut VoterStore,
    kv: &TtlMap<String>,
    sessions: &TtlMap<LoginSession>,
    email: &String,
    verify_code: &String,
    nickname: &Option<String>,
    ip: &Option<String>,
    sid: &Option<String>,
    now: u64,
) -> (r: Result<Voter, ServiceError>)
    requires
        old(voters).spec_next_id() < u64::MAX,
    ensures
        signup_email_post(
            old(voters)@,
            final(voters)@,
            kv@,
            sessions@,
            *email,
            *verify_code,
            *nickname,
            *ip,
            *sid,
            now,
            old(voters).spec_next_id(),
            r,
        ),
        final(voters).spec_next_id() as int == old(voters).spec_next_id() as int
            + final(voters)@.len() - old(voters)@.len(),
{
    if let Some(_) = voters.find_one(&VoterFilter::ByEmail(email.clone())) {
        return Err(ServiceError::UserAlreadyExists);
    }
    if let Err(e) = consume(kv, Channel::Email, email, verify_code, now) {
        return Err(e);
    }
    let mut voter = new_email_voter(email, nickname, ip, now);
    if let Some(sid_s) = sid {
        if let Some(sess) = resolve(sessions, sid_s, now) {
            apply_session(&mut voter, sess);
        }
    }
    let id = voters.insert(voter.clone());
    voter._id = Some(id);
    Ok(voter)
}

/// `signup via phone code`: create a voter with `phone_verified` set.
pub fn signup_phone(
    voters: &mut VoterStore,
    kv: &TtlMap<String>,
    sessions: &TtlMap<LoginSession>,
    phone: &String,
    verify_code: &String,
    nickname: &Option<String>,
    ip: &Option<String>,
    sid: &Option<String>,
    now: u64,
) -> (r: Result<Voter, ServiceError>)
    requires
        old(voters).spec_next_id() < u64::MAX,
    ensures
        signup_phone_post(
            old(voters)@,
            final(voters)@,
            kv@,
            sessions@,
            *phone,
            *verify_code,
            *nickname,
            *ip,
            *sid,
            now,
            old(voters).spec_next_id(),
            r,
        ),
        final(voters).spec_next_id() as int == old(voters).spec_next_id() as int
            + final(voters)@.len() - old(voters)@.len(),
{
    if let Some(_) = voters.find_one(&VoterFilter::ByPhone(phone.clone())) {
        return Err(ServiceError::UserAlreadyExists);
    }
    if let Err(e) = consume(kv, Channel::Phone, phone, verify_code, now) {
        return Err(e);
    }
    let mut voter = new_phone_voter(phone, nickname, ip, now);
    if let Some(sid_s) = sid {
        if let Some(sess) = resolve(sessions, sid_s, now) {
            apply_session(&mut voter, sess);
        }
    }
    let id = voters.insert(voter.clone());
    voter._id = Some(id);
    Ok(voter)
}

/// Outcome of `login_email`: an existing record is authenticated by the
/// code and updated from any pending session; a missing record falls
/// through to signup.
pub open spec fn login_email_post(
    voters0: Seq<Voter>,
    voters1: Seq<Voter>,
    kv: Map<Seq<char>, (String, u64)>,
    sessions: Map<Seq<char>, (LoginSession, u64)>,
    email: String,
    verify_code: String,
    nickname: Option<String>,
    ip: Option<String>,
    sid: Option<String>,
    now: u64,
    nid0: u64,
    r: Result<Voter, ServiceError>,
) -> bool {
    let idx = spec_find_idx(voters0, VoterFilter::ByEmail(email));
    match spec_find(voters0, VoterFilter::ByEmail(email)) {
        Some(v) => {
            if !code_matches(kv, Channel::Email, email@, verify_code@, now) {
                r matches Err(ServiceError::IncorrectVerifyCode) && voters1 == voters0
            } else {
                r matches Ok(v3) && session_applied(v3, v, sessions, sid, now) && (if
                session_resolves(sessions, sid, now) {
                    voters1 == voters0.update(idx, v3)
                } else {
                    voters1 == voters0
                })
            }
        },
        None => signup_email_post(
            voters0,
            voters1,
            kv,
            sessions,
            email,
            verify_code,
            nickname,
            ip,
            sid,
            now,
            nid0,
            r,
        ),
    }
}

/// Outcome of `login_phone`.
pub open spec fn login_phone_post(
    voters0: Seq<Voter>,
    voters1: Seq<Voter>,
    kv: Map<Seq<char>, (String, u64)>,
    sessions: Map<Seq<char>, (LoginSession, u64)>,
    phone: String,
    verify_code: String,
    nickname: Option<String>,
    ip: Option<String>,
    sid: Option<String>,
    now: u64,
    nid0: u64,
    r: Result<Voter, ServiceError>,
) -> bool {
    let idx = spec_find_idx(voters0, VoterFilter::ByPhone(phone));
    match spec_find(voters0, VoterFilter::ByPhone(phone)) {
        Some(v) => {
            if !code_matches(kv, Channel::Phone, phone@, verify_code@, now) {
                r matches Err(ServiceError::IncorrectVerifyCode) && voters1 == voters0
            } else {
                r matches Ok(v3) && session_applied(v3, v, sessions, sid, now) && (if
                session_resolves(sessions, sid, now) {
                    voters1 == voters0.update(idx, v3)
                } else {
                    voters1 == voters0
                })
            }
        },
        None => signup_phone_post(
            voters0,
            voters1,
            kv,
            sessions,
            phone,
            verify_code,
            nickname,
            ip,
            sid,
            now,
            nid0,
            r,
        ),
    }
}

/// `login-with-email-code(email, code, nickname?)`: authenticate an
/// existing record or create one on the fly.
pub fn login_email(
    voters: &mut VoterStore,
    kv: &TtlMap<String>,
    sessions: &TtlMap<LoginSession>,
    email: &String,
    verify_code: &String,
    nickname: &Option<String>,
    ip: &Option<String>,
    sid: &Option<String>,
    now: u64,
) -> (r: Result<Voter, ServiceError>)
    requires
        old(voters).spec_next_id() < u64::MAX,
    ensures
        login_email_post(
            old(voters)@,
            final(voters)@,
            kv@,
            sessions@,
            *email,
            *verify_code,
            *nickname,
            *ip,
            *sid,
            now,
            old(voters).spec_next_id(),
            r,
        ),
        final(voters).spec_next_id() as int == old(voters).spec_next_id() as int
            + final(voters)@.len() - old(voters)@.len(),
{
    let filter = VoterFilter::ByEmail(email.clone());
    let found = match voters.find_one(&filter) {
        Some(v) => Some(v.clone()),
        None => None,
    };
    match found {
        Some(voter) => {
            if let Err(e) = consume(kv, Channel::Email, email, verify_code, now) {
                return Err(e);
            }
            let mut v3 = voter;
            let resolved = match sid {
                Some(sid_s) => resolve(sessions, sid_s, now),
                None => None,
            };
            match resolved {
                Some(sess) => {
                    apply_session(&mut v3, sess);
                    proof {
                        crate::store::lemma_find_idx_valid(voters@, filter);
                    }
                    voters.replace_one(&filter, v3.clone());
                    Ok(v3)
                },
                None => Ok(v3),
            }
        },
        None => signup_email(voters, kv, sessions, email, verify_code, nickname, ip, sid, now),
    }
}

/// `login-with-phone-code(phone, code, nickname?)`.
pub fn login_phone(
    voters: &mut VoterStore,
    kv: &TtlMap<String>,
    sessions: &TtlMap<LoginSession>,
    phone: &String,
    verify_code: &String,
    nickname: &Option<String>,
    ip: &Option<String>,
    sid: &Option<String>,
    now: u64,
) -> (r: Result<Voter, ServiceError>)
    requires
        old(voters).spec_next_id() < u64::MAX,
    ensures
        login_phone_post(
            old(voters)@,
            final(voters)@,
            kv@,
            sessions@,
            *phone,
            *verify_code,
            *nickname,
            *ip,
            *sid,
            now,
            old(voters).spec_next_id(),
            r,
        ),
        final(voters).spec_next_id() as int == old(voters).spec_next_id() as int
            + final(voters)@.len() - old(voters)@.len(),
{
    let filter = VoterFilter::ByPhone(phone.clone());
    let found = match voters.find_one(&filter) {
        Some(v) => Some(v.clone()),
        None => None,
    };
    match found {
        Some(voter) => {
            if let Err(e) = consume(kv, Channel::Phone, phone, verify_code, now) {
                return Err(e);
            }
            let mut v3 = voter;
            let resolved = match sid {
                Some(sid_s) => resolve(sessions, sid_s, now),
                None => None,
            };
            match resolved {
                Some(sess) => {
                    apply_session(&mut v3, sess);
                    proof {
                        crate::store::lemma_find_idx_valid(voters@, filter);
                    }
                    voters.replace_one(&filter, v3.clone());
                    Ok(v3)
                },
                None => Ok(v3),
            }
        },
        None => signup_phone(voters, kv, sessions, phone, verify_code, nickname, ip, sid, now),
    }
}

/// `send-email-code(email)`: issue and store a one-time code, rate
/// limited by the one-minute guard.
pub fn send_email(kv: &mut TtlMap<String>, email: &String, now: u64) -> (r: Result<
    (),
    ServiceError,
>)
    requires
        now + CODE_TTL_SECONDS <= u64::MAX,
    ensures
        guard_live(old(kv)@, Channel::Email, email@, now) ==> (r matches Err(
            ServiceError::TooFrequent,
        ) && final(kv)@ == old(kv)@),
        !guard_live(old(kv)@, Channel::Email, email@, now) ==> r is Ok && (exists|n: u32|
            n <= 999999 && send_effect(old(kv)@, final(kv)@, Channel::Email, email@, now, n)),
{
    send(kv, Channel::Email, email, now)
}

/// `send-phone-code(phone)`: issue and store a one-time code, rate
/// limited by the one-minute guard.
pub fn send_sms(kv: &mut TtlMap<String>, phone: &String, now: u64) -> (r: Result<
    (),
    ServiceError,
>)
    requires
        now + CODE_TTL_SECONDS <= u64::MAX,
    ensures
        guard_live(old(kv)@, Channel::Phone, phone@, now) ==> (r matches Err(
            ServiceError::TooFrequent,
        ) && final(kv)@ == old(kv)@),
        !guard_live(old(kv)@, Channel::Phone, phone@, now) ==> r is Ok && (exists|n: u32|
            n <= 999999 && send_effect(old(kv)@, final(kv)@, Channel::Phone, phone@, now, n)),
{
    send(kv, Channel::Phone, phone, now)
}

} // verus!
