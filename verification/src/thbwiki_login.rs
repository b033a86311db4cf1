//! Federated identity callback: link a proven third-party uid to an
//! existing voter, create one when the proven email is unclaimed, or
//! park the claims in a pending session when no email was proven.

use vstd::prelude::*;

use crate::models::{clone_opt_string, ServiceError, Voter};
use crate::session::{begin_random, LoginSession, SESSION_TTL_SECONDS};
use crate::store::{spec_find, spec_find_idx, VoterFilter, VoterStore};
use crate::strfmt::dec_digits;
use crate::ttlmap::TtlMap;

verus! {

/// The record created for a federated signup with a proven email: the
/// email is stored unverified, and the federated uid is set.
pub open spec fn fresh_federated_voter(
    email: String,
    nickname: Option<String>,
    signup_ip: Option<String>,
    uid: String,
    now: u64,
) -> Voter {
    Voter {
        _id: None,
        phone: None,
        phone_verified: false,
        email: Some(email),
        email_verified: false,
        password_hashed: None,
        salt: None,
        created_at: now,
        nickname: nickname,
        signup_ip: signup_ip,
        qq_openid: None,
        pfp: None,
        thbwiki_uid: Some(uid),
        removed: false,
    }
}

/// Outcome of `redirect_callback`.
pub open spec fn redirect_callback_post(
    voters0: Seq<Voter>,
    voters1: Seq<Voter>,
    sessions0: Map<Seq<char>, (LoginSession, u64)>,
    sessions1: Map<Seq<char>, (LoginSession, u64)>,
    uid: String,
    email: Option<String>,
    nickname: Option<String>,
    signup_ip: Option<String>,
    now: u64,
    nid0: u64,
    r: Result<Voter, ServiceError>,
) -> bool {
    match email {
        None => {
            // No email proven: park the claims and redirect to signup,
            // carrying the fresh session id.
            r matches Err(ServiceError::RedirectToSignup { sid, nickname: nk }) && nk == nickname
                && sessions1 == sessions0.insert(
                sid@,
                (
                    LoginSession {
                        thbwiki_uid: Some(uid),
                        qq_openid: None,
                        signup_ip: signup_ip,
                    },
                    (now + SESSION_TTL_SECONDS) as u64,
                ),
            ) && voters1 == voters0
        },
        Some(em) => {
            let idx = spec_find_idx(voters0, VoterFilter::ByEmail(em));
            sessions1 == sessions0 && (match spec_find(voters0, VoterFilter::ByEmail(em)) {
                Some(v) => r matches Ok(v3) && v3 == (Voter { thbwiki_uid: Some(uid), ..v })
                    && voters1 == voters0.update(idx, v3),
                None => r matches Ok(v3) && (Voter { _id: None, ..v3 }) == fresh_federated_voter(
                    em,
                    nickname,
                    signup_ip,
                    uid,
                    now,
                ) && v3._id is Some && v3._id->0@ == dec_digits(nid0 as int) && voters1
                    == voters0.push(v3),
            })
        },
    }
}

/// Build the record a federated signup with a proven email creates.
pub fn new_federated_voter(
    email: &String,
    nickname: &Option<String>,
    signup_ip: &Option<String>,
    uid: &String,
    now: u64,
) -> (r: Voter)
    ensures
        r == fresh_federated_voter(*email, *nickname, *signup_ip, *uid, now),
{
    Voter {
        _id: None,
        phone: None,
        phone_verified: false,
        email: Some(email.clone()),
        email_verified: false,
        password_hashed: None,
        salt: None,
        created_at: now,
        nickname: clone_opt_string(nickname),
        signup_ip: clone_opt_string(signup_ip),
        qq_openid: None,
        pfp: None,
        thbwiki_uid: Some(uid.clone()),
        removed: false,
    }
}

/// `federated-callback(provider, proven-claims)`: resolve or create the
/// voter for a proven email, or start a pending session without one.
pub fn redirect_callback(
    voters: &mut VoterStore,
    sessions: &mut TtlMap<LoginSession>,
    uid: &String,
    email: &Option<String>,
    nickname: &Option<String>,
    signup_ip: &Option<String>,
    now: u64,
) -> (r: Result<Voter, ServiceError>)
    requires
        old(voters).spec_next_id() < u64::MAX,
        now + SESSION_TTL_SECONDS <= u64::MAX,
    ensures
        redirect_callback_post(
            old(voters)@,
            final(voters)@,
            old(sessions)@,
            final(sessions)@,
            *uid,
            *email,
            *nickname,
            *signup_ip,
            now,
            old(voters).spec_next_id(),
            r,
        ),
        final(voters).spec_next_id() as int == old(voters).spec_next_id() as int
            + final(voters)@.len() - old(voters)@.len(),
{
    let em = match email {
        None => {
            let sess = LoginSession {
                thbwiki_uid: Some(uid.clone()),
                qq_openid: None,
                signup_ip: clone_opt_string(signup_ip),
            };
            let sid = begin_random(sessions, sess, now);
            return Err(ServiceError::RedirectToSignup {
                sid,
                nickname: clone_opt_string(nickname),
            });
        },
        Some(em) => em,
    };
    let filter = VoterFilter::ByEmail(em.clone());
    let found = match voters.find_one(&filter) {
        Some(v) => Some(v.clone()),
        None => None,
    };
    match found {
        Some(v) => {
            let mut v3 = v;
            v3.thbwiki_uid = Some(uid.clone());
            proof {
                crate::store::lemma_find_idx_valid(voters@, filter);
            }
            voters.replace_one(&filter, v3.clone());
            Ok(v3)
        },
        None => {
            let mut voter = new_federated_voter(em, nickname, signup_ip, uid, now);
            let id = voters.insert(voter.clone());
            voter._id = Some(id);
            Ok(voter)
        },
    }
}

} // verus!
